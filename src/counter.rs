use vstd::prelude::*;
use crate::engine::{Game, GameError, PlayerId, next_player, position};

verus! {

/// A count and the player whose turn it is.
#[derive(Clone, Copy, Debug, PartialEq, Eq)]
pub struct CounterState {
    pub value: u32,
    pub current: PlayerId,
}

/// Adds one to the count.
#[derive(Clone, Copy, Debug, PartialEq, Eq)]
pub struct CounterAction;

/// The count after which a counter game is over.
pub const COUNTER_GOAL: u32 = 5;

/// Players take turns adding one to a shared count; the game is over once
/// the count reaches `COUNTER_GOAL`.
#[derive(Clone)]
pub struct CounterGame {
    pub state: CounterState,
    players: Vec<PlayerId>,
}

impl Game for CounterGame {
    type State = CounterState;

    type Action = CounterAction;

    open spec fn valid_players(players: Seq<PlayerId>) -> bool {
        0 < players.len()
    }

    open spec fn initial_state(players: Seq<PlayerId>) -> CounterState {
        CounterState { value: 0, current: players[0] }
    }

    open spec fn next_state(players: Seq<PlayerId>, s: CounterState, a: CounterAction) -> Option<CounterState> {
        if s.value == u32::MAX {
            None
        } else {
            let value = (s.value + 1) as u32;
            Some(
                CounterState {
                    value,
                    current: if value >= COUNTER_GOAL {
                        s.current
                    } else {
                        next_player(players, s.current)
                    },
                },
            )
        }
    }

    open spec fn player_of(s: CounterState) -> PlayerId {
        s.current
    }

    open spec fn finished(s: CounterState) -> bool {
        s.value >= COUNTER_GOAL
    }

    closed spec fn players(&self) -> Seq<PlayerId> {
        self.players@
    }

    closed spec fn current_state(&self) -> CounterState {
        self.state
    }

    closed spec fn wf(&self) -> bool {
        &&& Self::valid_players(self.players@)
        &&& self.players@.contains(self.state.current)
    }

    fn new(players: Vec<PlayerId>) -> (r: Self) {
        let first = players[0];
        CounterGame { state: CounterState { value: 0, current: first }, players }
    }

    fn state(&self) -> (r: &CounterState) {
        &self.state
    }

    fn current_player(&self) -> (r: PlayerId) {
        self.state.current
    }

    fn apply_action(&mut self, action: CounterAction) -> (r: Result<(), GameError>) {
        if self.state.value == u32::MAX {
            return Err(GameError::InvalidAction("counter at its limit".to_owned()));
        }
        self.state.value = self.state.value + 1;
        if self.state.value < COUNTER_GOAL {
            let n = self.players.len();
            let idx = position(&self.players, self.state.current);
            self.state.current = self.players[(idx + 1) % n];
        }
        Ok(())
    }

    fn is_finished(&self) -> (r: bool) {
        self.state.value >= COUNTER_GOAL
    }

    proof fn lemma_turn_rotation(players: Seq<PlayerId>, s: CounterState, a: CounterAction) {
    }

    fn clone_state(s: &CounterState) -> (r: CounterState) {
        *s
    }

    fn clone_action(a: &CounterAction) -> (r: CounterAction) {
        *a
    }
}

} // verus!
