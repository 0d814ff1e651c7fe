use vstd::prelude::*;

verus! {

/// Identifies a participant; only identity and position in the turn order matter.
pub type PlayerId = u32;

/// The one kind of failure a game reports: an action that its rules refuse.
#[derive(Debug)]
pub enum GameError {
    InvalidAction(String),
}

/// Index of the first occurrence of `p` in `players`, or `players.len()` if absent.
pub open spec fn first_index(players: Seq<PlayerId>, p: PlayerId) -> int
    decreases players.len(),
{
    if players.len() == 0 {
        0
    } else if players[0] == p {
        0
    } else {
        1 + first_index(players.drop_first(), p)
    }
}

/// The player whose turn follows `current` in the cyclic order `players`.
pub open spec fn next_player(players: Seq<PlayerId>, current: PlayerId) -> PlayerId {
    players[(first_index(players, current) + 1) % (players.len() as int)]
}

/// `p`'s first place in `players` is `i`.
proof fn lemma_first_index_at(players: Seq<PlayerId>, p: PlayerId, i: int)
    requires
        0 <= i < players.len(),
        players[i] == p,
        forall|j: int| 0 <= j < i ==> players[j] != p,
    ensures
        first_index(players, p) == i,
    decreases i,
{
    if i > 0 {
        lemma_first_index_at(players.drop_first(), p, i - 1);
    }
}

/// The place of `p` in `players`, which must hold it.
pub fn position(players: &Vec<PlayerId>, p: PlayerId) -> (r: usize)
    requires
        players@.contains(p),
    ensures
        r < players@.len(),
        players@[r as int] == p,
        r == first_index(players@, p),
{
    let mut i: usize = 0;
    while i < players.len()
        invariant
            0 <= i <= players@.len(),
            players@.contains(p),
            forall|j: int| 0 <= j < i ==> players@[j] != p,
        decreases players@.len() - i,
    {
        if players[i] == p {
            proof {
                lemma_first_index_at(players@, p, i as int);
            }
            return i;
        }
        i = i + 1;
    }
    proof {
        let k = choose|k: int| 0 <= k < players@.len() && players@[k] == p;
        assert(players@[k] == p);
    }
    0
}

/// The capability set every concrete game provides.
///
/// A game owns its state and its turn order. Its behaviour is described by
/// pure functions of the turn order, the state and an action, so that two
/// instances built from the same players and fed the same actions agree.
pub trait Game: Sized {
    type State;
    type Action;

    /// Which player lists the game can be built from.
    spec fn valid_players(players: Seq<PlayerId>) -> bool;

    /// The state of a fresh game for `players`.
    spec fn initial_state(players: Seq<PlayerId>) -> Self::State;

    /// The result of applying `a` to `s`, or `None` when the rules refuse it.
    spec fn next_state(players: Seq<PlayerId>, s: Self::State, a: Self::Action) -> Option<
        Self::State,
    >;

    /// The player whose turn it is in `s`.
    spec fn player_of(s: Self::State) -> PlayerId;

    /// Whether `s` is terminal.
    spec fn finished(s: Self::State) -> bool;

    /// The turn order fixed at construction.
    spec fn players(&self) -> Seq<PlayerId>;

    /// The state this instance holds.
    spec fn current_state(&self) -> Self::State;

    /// The invariant every instance keeps.
    spec fn wf(&self) -> bool;

    fn new(players: Vec<PlayerId>) -> (r: Self)
        requires
            Self::valid_players(players@),
        ensures
            r.wf(),
            r.players() == players@,
            r.current_state() == Self::initial_state(players@),
    ;

    fn state(&self) -> (r: &Self::State)
        ensures
            *r == self.current_state(),
    ;

    fn current_player(&self) -> (r: PlayerId)
        ensures
            r == Self::player_of(self.current_state()),
    ;

    /// Validates `action` and applies it. On success the turn passes to the
    /// next player in the rotation, unless the game has just finished; on
    /// failure nothing changes.
    fn apply_action(&mut self, action: Self::Action) -> (r: Result<(), GameError>)
        requires
            old(self).wf(),
        ensures
            final(self).wf(),
            final(self).players() == old(self).players(),
            match Self::next_state(old(self).players(), old(self).current_state(), action) {
                Some(t) => {
                    &&& r is Ok
                    &&& final(self).current_state() == t
                    &&& Self::player_of(t) == if Self::finished(t) {
                        Self::player_of(old(self).current_state())
                    } else {
                        next_player(old(self).players(), Self::player_of(old(self).current_state()))
                    }
                },
                None => r is Err && final(self).current_state() == old(self).current_state(),
            },
    ;

    fn is_finished(&self) -> (r: bool)
        ensures
            r == Self::finished(self.current_state()),
    ;

    /// Every accepted action passes the turn to the next player in the
    /// rotation, unless it finishes the game.
    proof fn lemma_turn_rotation(players: Seq<PlayerId>, s: Self::State, a: Self::Action)
        requires
            Self::next_state(players, s, a) is Some,
        ensures
            Self::player_of(Self::next_state(players, s, a)->0) == if Self::finished(
                Self::next_state(players, s, a)->0,
            ) {
                Self::player_of(s)
            } else {
                next_player(players, Self::player_of(s))
            },
    ;

    /// An independent copy of a state.
    fn clone_state(s: &Self::State) -> (r: Self::State)
        ensures
            r == *s,
    ;

    /// An independent copy of an action.
    fn clone_action(a: &Self::Action) -> (r: Self::Action)
        ensures
            r == *a,
    ;
}

/// The state reached from `s` by applying `actions` in order, or `None` if
/// one of them is refused.
pub open spec fn replayed<G: Game>(players: Seq<PlayerId>, s: G::State, actions: Seq<G::Action>) -> Option<G::State>
    decreases actions.len(),
{
    if actions.len() == 0 {
        Some(s)
    } else {
        match replayed::<G>(players, s, actions.drop_last()) {
            Some(t) => G::next_state(players, t, actions.last()),
            None => None,
        }
    }
}

/// Feeds `actions` in order to a game in state `s`, skipping those it
/// refuses: the final state and the accepted actions, in order. This is what
/// a sequence of `GameEngine::apply_action` calls does to the game's state
/// and to the log.
pub open spec fn run<G: Game>(players: Seq<PlayerId>, s: G::State, actions: Seq<G::Action>) -> (G::State, Seq<G::Action>)
    decreases actions.len(),
{
    if actions.len() == 0 {
        (s, Seq::empty())
    } else {
        let (t, log) = run::<G>(players, s, actions.drop_last());
        match G::next_state(players, t, actions.last()) {
            Some(u) => (u, log.push(actions.last())),
            None => (t, log),
        }
    }
}

/// How many of `actions`, fed in order from `s`, are accepted.
pub open spec fn accepted_count<G: Game>(players: Seq<PlayerId>, s: G::State, actions: Seq<G::Action>) -> nat
    decreases actions.len(),
{
    if actions.len() == 0 {
        0
    } else {
        let prior = accepted_count::<G>(players, s, actions.drop_last());
        if G::next_state(players, run::<G>(players, s, actions.drop_last()).0, actions.last()) is Some {
            prior + 1
        } else {
            prior
        }
    }
}

/// Builds a fresh game for `players` and applies `actions` to it in order.
/// Fails with the first refusal.
pub fn replay<G: Game>(players: Vec<PlayerId>, actions: &[G::Action]) -> (r: Result<G, GameError>)
    requires
        G::valid_players(players@),
    ensures
        match replayed::<G>(players@, G::initial_state(players@), actions@) {
            Some(s) => r is Ok && r->Ok_0.wf() && r->Ok_0.players() == players@
                && r->Ok_0.current_state() == s,
            None => r is Err,
        },
{
    let ghost ps = players@;
    let mut game = G::new(players);
    let mut i: usize = 0;
    while i < actions.len()
        invariant
            0 <= i <= actions@.len(),
            game.wf(),
            game.players() == ps,
            ps == players@,
            replayed::<G>(ps, G::initial_state(ps), actions@.take(i as int)) == Some(
                game.current_state(),
            ),
        decreases actions@.len() - i,
    {
        let a = G::clone_action(&actions[i]);
        proof {
            assert(actions@.take(i + 1).drop_last() == actions@.take(i as int));
        }
        match game.apply_action(a) {
            Ok(()) => {},
            Err(e) => {
                proof {
                    assert(actions@.take(i + 1).last() == actions@[i as int]);
                    assert(replayed::<G>(ps, G::initial_state(ps), actions@.take(i + 1)) is None);
                    lemma_replayed_stuck::<G>(ps, G::initial_state(ps), actions@, i as int + 1);
                }
                return Err(e);
            },
        }
        i = i + 1;
    }
    proof {
        assert(actions@.take(actions@.len() as int) == actions@);
    }
    Ok(game)
}

/// Once a prefix of `actions` is refused, so is every longer prefix.
proof fn lemma_replayed_stuck<G: Game>(players: Seq<PlayerId>, s: G::State, actions: Seq<G::Action>, k: int)
    requires
        0 <= k <= actions.len(),
        replayed::<G>(players, s, actions.take(k)) is None,
    ensures
        replayed::<G>(players, s, actions) is None,
    decreases actions.len() - k,
{
    if k < actions.len() {
        assert(actions.take(k + 1).drop_last() == actions.take(k));
        lemma_replayed_stuck::<G>(players, s, actions, k + 1);
    } else {
        assert(actions.take(k) == actions);
    }
}

/// Drives one game and keeps the log of every action it accepted.
pub struct GameEngine<G: Game> {
    game: G,
    log: Vec<G::Action>,
    origin: Ghost<G::State>,
}

impl<G: Game> GameEngine<G> {
    /// The wrapped game.
    pub closed spec fn inner(&self) -> G {
        self.game
    }

    /// The actions accepted so far, in order.
    pub closed spec fn log(&self) -> Seq<G::Action> {
        self.log@
    }

    /// The state the game had when the engine took it over.
    pub closed spec fn origin(&self) -> G::State {
        self.origin@
    }

    /// The game is sound, and replaying the log from the origin gives its state.
    pub closed spec fn wf(&self) -> bool {
        &&& self.game.wf()
        &&& replayed::<G>(self.game.players(), self.origin@, self.log@) == Some(
            self.game.current_state(),
        )
    }

    /// Replaying the log from the state the engine started in reproduces the
    /// state of its game. For an engine built on a fresh game, `replay` on
    /// the same players and this log therefore returns a game in that state.
    pub proof fn lemma_replay_fidelity(&self)
        requires
            self.wf(),
        ensures
            replayed::<G>(self.inner().players(), self.origin(), self.log()) == Some(
                self.inner().current_state(),
            ),
    {
    }

    pub fn new(game: G) -> (r: Self)
        requires
            game.wf(),
        ensures
            r.wf(),
            r.inner() == game,
            r.log() == Seq::<G::Action>::empty(),
            r.origin() == game.current_state(),
    {
        let ghost origin = game.current_state();
        GameEngine { game, log: Vec::new(), origin: Ghost(origin) }
    }

    /// Hands `action` to the game; logs it only if the game accepted it.
    pub fn apply_action(&mut self, action: G::Action) -> (r: Result<(), GameError>)
        requires
            old(self).wf(),
        ensures
            final(self).wf(),
            final(self).origin() == old(self).origin(),
            final(self).inner().players() == old(self).inner().players(),
            match G::next_state(old(self).inner().players(), old(self).inner().current_state(), action) {
                Some(t) => {
                    &&& r is Ok
                    &&& final(self).inner().current_state() == t
                    &&& final(self).log() == old(self).log().push(action)
                },
                None => {
                    &&& r is Err
                    &&& final(self).inner().current_state() == old(self).inner().current_state()
                    &&& final(self).log() == old(self).log()
                },
            },
    {
        let copy = G::clone_action(&action);
        let r = self.game.apply_action(copy);
        match r {
            Ok(()) => {
                self.log.push(action);
                proof {
                    let ghost log = self.log@;
                    assert(log.drop_last() == old(self).log@);
                }
                Ok(())
            },
            Err(e) => Err(e),
        }
    }

    /// An independent copy of the game's current state.
    pub fn state_snapshot(&self) -> (r: G::State)
        ensures
            r == self.inner().current_state(),
    {
        G::clone_state(self.game.state())
    }

    /// Every accepted action, in the order it was applied.
    pub fn replay_log(&self) -> (r: &[G::Action])
        ensures
            r@ == self.log(),
    {
        self.log.as_slice()
    }

    /// Read access to the wrapped game.
    pub fn game(&self) -> (r: &G)
        ensures
            *r == self.inner(),
    {
        &self.game
    }
}

} // verus!
