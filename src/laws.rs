use vstd::prelude::*;
use crate::engine::{Game, PlayerId, accepted_count, first_index, next_player, replayed, run};

verus! {

/// Whatever actions are submitted, and whichever of them are refused, the
/// accepted ones replayed from the start reach the same final state.
pub proof fn lemma_run_replays<G: Game>(players: Seq<PlayerId>, s: G::State, actions: Seq<G::Action>)
    ensures
        replayed::<G>(players, s, run::<G>(players, s, actions).1) == Some(run::<G>(players, s, actions).0),
    decreases actions.len(),
{
    if actions.len() > 0 {
        lemma_run_replays::<G>(players, s, actions.drop_last());
        let log = run::<G>(players, s, actions.drop_last()).1;
        assert(log.push(actions.last()).drop_last() == log);
    }
}

/// The log holds exactly as many actions as were accepted: refused
/// submissions never reach it.
pub proof fn lemma_log_counts_accepted<G: Game>(players: Seq<PlayerId>, s: G::State, actions: Seq<G::Action>)
    ensures
        run::<G>(players, s, actions).1.len() == accepted_count::<G>(players, s, actions),
        accepted_count::<G>(players, s, actions) <= actions.len(),
    decreases actions.len(),
{
    if actions.len() > 0 {
        lemma_log_counts_accepted::<G>(players, s, actions.drop_last());
    }
}

/// With two distinct players, every accepted action that does not end the
/// game hands the turn to the other one.
pub proof fn lemma_two_players_alternate<G: Game>(a: PlayerId, b: PlayerId, s: G::State, action: G::Action)
    requires
        a != b,
        G::player_of(s) == a || G::player_of(s) == b,
        G::next_state(seq![a, b], s, action) is Some,
        !G::finished(G::next_state(seq![a, b], s, action)->0),
    ensures
        G::player_of(s) == a ==> G::player_of(G::next_state(seq![a, b], s, action)->0) == b,
        G::player_of(s) == b ==> G::player_of(G::next_state(seq![a, b], s, action)->0) == a,
{
    let players = seq![a, b];
    G::lemma_turn_rotation(players, s, action);
    assert(players[0] == a && players[1] == b && players.len() == 2);
    assert(players.drop_first() == seq![b]);
    assert(players.drop_first().drop_first() == Seq::<PlayerId>::empty());
    if G::player_of(s) == a {
        assert(first_index(players, a) == 0);
        assert((first_index(players, a) + 1) % (players.len() as int) == 1) by (nonlinear_arith)
            requires
                first_index(players, a) == 0,
                players.len() == 2,
        ;
        assert(next_player(players, a) == players[1]);
    } else {
        assert(first_index(players.drop_first(), b) == 0);
        assert(first_index(players, b) == 1);
        assert((first_index(players, b) + 1) % (players.len() as int) == 0) by (nonlinear_arith)
            requires
                first_index(players, b) == 1,
                players.len() == 2,
        ;
        assert(next_player(players, b) == players[0]);
    }
}

/// Refused actions leave the state as it was: a run in which nothing was
/// accepted ends where it began.
proof fn lemma_nothing_accepted_nothing_changed<G: Game>(players: Seq<PlayerId>, s: G::State, actions: Seq<G::Action>)
    ensures
        run::<G>(players, s, actions).1.len() == 0 ==> run::<G>(players, s, actions).0 == s,
    decreases actions.len(),
{
    if actions.len() > 0 {
        lemma_nothing_accepted_nothing_changed::<G>(players, s, actions.drop_last());
    }
}

/// A game that was not finished becomes finished only through an accepted
/// action: refused ones cannot bring it there.
pub proof fn lemma_finish_follows_success<G: Game>(players: Seq<PlayerId>, s: G::State, actions: Seq<G::Action>)
    requires
        !G::finished(s),
        G::finished(run::<G>(players, s, actions).0),
    ensures
        run::<G>(players, s, actions).1.len() > 0,
{
    lemma_nothing_accepted_nothing_changed::<G>(players, s, actions);
}

} // verus!
