use vstd::prelude::*;
use crate::engine::{Game, GameError, PlayerId, first_index, next_player, position};

verus! {

/// The grid: nine cells, row by row, each 0 when empty or the mark of the
/// player who took it, and the player whose turn it is.
#[derive(Clone, Copy, Debug, PartialEq, Eq)]
pub struct Board {
    pub cells: [u8; 9],
    pub current: PlayerId,
}

/// Takes the cell at `index`.
#[derive(Clone, Copy, Debug, PartialEq, Eq)]
pub struct Move {
    pub index: usize,
}

/// Three in a row on a 3x3 grid, for any number of players taking turns.
#[derive(Clone)]
pub struct TicTacToe {
    board: Board,
    players: Vec<PlayerId>,
}

/// The most players a game can take: each needs a distinct nonzero mark.
pub const MAX_PLAYERS: usize = 255;

/// The mark a player leaves in a cell: one more than its place in the order.
pub open spec fn mark_of(players: Seq<PlayerId>, p: PlayerId) -> u8 {
    (first_index(players, p) + 1) as u8
}

/// Cells `a`, `b` and `c` hold the same mark.
pub open spec fn line_won(cells: Seq<u8>, a: int, b: int, c: int) -> bool {
    cells[a] != 0 && cells[a] == cells[b] && cells[a] == cells[c]
}

/// Some row, column or diagonal holds one mark.
pub open spec fn has_winning_line(cells: Seq<u8>) -> bool {
    ||| line_won(cells, 0, 1, 2)
    ||| line_won(cells, 3, 4, 5)
    ||| line_won(cells, 6, 7, 8)
    ||| line_won(cells, 0, 3, 6)
    ||| line_won(cells, 1, 4, 7)
    ||| line_won(cells, 2, 5, 8)
    ||| line_won(cells, 0, 4, 8)
    ||| line_won(cells, 2, 4, 6)
}

/// No cell is empty.
pub open spec fn board_full(cells: Seq<u8>) -> bool {
    forall|i: int| 0 <= i < 9 ==> cells[i] != 0
}

pub open spec fn board_over(cells: Seq<u8>) -> bool {
    has_winning_line(cells) || board_full(cells)
}

fn line(cells: &[u8; 9], a: usize, b: usize, c: usize) -> (r: bool)
    requires
        a < 9 && b < 9 && c < 9,
    ensures
        r == line_won(cells@, a as int, b as int, c as int),
{
    let v = cells[a];
    v != 0 && v == cells[b] && v == cells[c]
}

fn over(cells: &[u8; 9]) -> (r: bool)
    ensures
        r == board_over(cells@),
{
    if line(cells, 0, 1, 2) || line(cells, 3, 4, 5) || line(cells, 6, 7, 8) || line(cells, 0, 3, 6)
        || line(cells, 1, 4, 7) || line(cells, 2, 5, 8) || line(cells, 0, 4, 8) || line(cells, 2, 4, 6) {
        return true;
    }
    let mut i: usize = 0;
    while i < 9
        invariant
            0 <= i <= 9,
            !has_winning_line(cells@),
            forall|j: int| 0 <= j < i ==> cells@[j] != 0,
        decreases 9 - i,
    {
        if cells[i] == 0 {
            assert(cells@[i as int] == 0);
            return false;
        }
        i = i + 1;
    }
    true
}

impl TicTacToe {
    /// A fresh game: all cells empty, the first player to move.
    pub fn new(players: Vec<PlayerId>) -> (r: Self)
        requires
            0 < players@.len() <= MAX_PLAYERS,
        ensures
            r.wf(),
            r.players() == players@,
            r.current_state() == Self::initial_state(players@),
    {
        let first = players[0];
        TicTacToe { board: Board { cells: [0u8; 9], current: first }, players }
    }
}

impl Game for TicTacToe {
    type State = Board;

    type Action = Move;

    open spec fn valid_players(players: Seq<PlayerId>) -> bool {
        0 < players.len() <= MAX_PLAYERS
    }

    open spec fn initial_state(players: Seq<PlayerId>) -> Board {
        Board { cells: vstd::array::spec_array_fill_for_copy_type::<u8, 9>(0), current: players[0] }
    }

    open spec fn next_state(players: Seq<PlayerId>, s: Board, a: Move) -> Option<Board> {
        if a.index >= 9 || s.cells@[a.index as int] != 0 {
            None
        } else {
            let cells = vstd::array::spec_array_update(s.cells, a.index as int, mark_of(players, s.current));
            Some(
                Board {
                    cells,
                    current: if board_over(cells@) {
                        s.current
                    } else {
                        next_player(players, s.current)
                    },
                },
            )
        }
    }

    open spec fn player_of(s: Board) -> PlayerId {
        s.current
    }

    open spec fn finished(s: Board) -> bool {
        board_over(s.cells@)
    }

    closed spec fn players(&self) -> Seq<PlayerId> {
        self.players@
    }

    closed spec fn current_state(&self) -> Board {
        self.board
    }

    closed spec fn wf(&self) -> bool {
        &&& Self::valid_players(self.players@)
        &&& self.players@.contains(self.board.current)
    }

    fn new(players: Vec<PlayerId>) -> (r: Self) {
        TicTacToe::new(players)
    }

    fn state(&self) -> (r: &Board) {
        &self.board
    }

    fn current_player(&self) -> (r: PlayerId) {
        self.board.current
    }

    fn apply_action(&mut self, action: Move) -> (r: Result<(), GameError>)
        ensures
            action.index >= 9 ==> (r matches Err(GameError::InvalidAction(m)) && m@
                == "index out of range"@),
            action.index < 9 && old(self).current_state().cells@[action.index as int] != 0 ==> (r matches Err(
                GameError::InvalidAction(m),
            ) && m@ == "cell not empty"@),
    {
        if action.index >= 9 {
            return Err(GameError::InvalidAction("index out of range".to_owned()));
        }
        if self.board.cells[action.index] != 0 {
            return Err(GameError::InvalidAction("cell not empty".to_owned()));
        }
        let idx = position(&self.players, self.board.current);
        let mark = (idx + 1) as u8;
        self.board.cells[action.index] = mark;
        if !over(&self.board.cells) {
            self.board.current = self.players[(idx + 1) % self.players.len()];
        }
        Ok(())
    }

    fn is_finished(&self) -> (r: bool) {
        over(&self.board.cells)
    }

    proof fn lemma_turn_rotation(players: Seq<PlayerId>, s: Board, a: Move) {
    }

    fn clone_state(s: &Board) -> (r: Board) {
        *s
    }

    fn clone_action(a: &Move) -> (r: Move) {
        *a
    }
}

/// Shows a board as text: one label per cell.
pub struct TicTacToeDisplay;

/// The label of a cell: `-` when empty, `X` and `O` for the first two
/// players, `?` for any other mark.
pub open spec fn label_of(v: u8) -> Seq<char> {
    if v == 0 {
        "-"@
    } else if v == 1 {
        "X"@
    } else if v == 2 {
        "O"@
    } else {
        "?"@
    }
}

impl TicTacToeDisplay {
    /// The label of the cell at `index` in `game`'s board.
    pub fn cell_label(&self, game: &TicTacToe, index: usize) -> (r: &'static str)
        requires
            index < 9,
        ensures
            r@ == label_of(game.current_state().cells@[index as int]),
    {
        match game.board.cells[index] {
            0 => "-",
            1 => "X",
            2 => "O",
            _ => "?",
        }
    }
}

} // verus!
