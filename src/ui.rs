use vstd::prelude::*;

verus! {

/// The presentation host that hands a game to its display.
pub struct GameUi;

impl GameUi {
    pub fn new() -> (r: Self) {
        GameUi
    }
}

} // verus!
