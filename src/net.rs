use vstd::prelude::*;

verus! {

/// Where and how to reach a relay server.
#[derive(Clone, Debug)]
pub struct TurnConfig {
    pub url: String,
    pub username: String,
    pub credential: String,
}

/// What can go wrong while talking to peers.
#[derive(Debug)]
pub enum NetError {
    ConnectionFailed,
    SendFailed,
}

/// A session with the peers of one room.
pub struct Connection {
    room_id: String,
    turn: Option<TurnConfig>,
}

impl Connection {
    /// The room this session joins.
    pub closed spec fn room(&self) -> Seq<char> {
        self.room_id@
    }

    /// The relay settings it keeps for reconnecting.
    pub closed spec fn relay(&self) -> Option<TurnConfig> {
        self.turn
    }

    pub fn new(room_id: String, turn: Option<TurnConfig>) -> (r: Self)
        ensures
            r.room() == room_id@,
            r.relay() == turn,
    {
        Connection { room_id, turn }
    }

    pub fn room_id(&self) -> (r: &String)
        ensures
            r@ == self.room(),
    {
        &self.room_id
    }

    pub fn turn(&self) -> (r: &Option<TurnConfig>)
        ensures
            *r == self.relay(),
    {
        &self.turn
    }
}

} // verus!
