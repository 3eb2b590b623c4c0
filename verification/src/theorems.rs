//! What holds of the session machine and the match state whatever the
//! players send and in whatever order their sessions run.

use crate::error::SessionError;
use crate::match_state::MatchView;
use crate::outcome::{lemma_outcome_of_two, outcome_of, text_of, Outcome};
use crate::session::{
    barrier_spec, step_spec, ActionView, EventView, Phase, Session, Transition,
};
use crate::wire::{
    be_bytes, lemma_signed_round_trip, lemma_value_round_trip, pattern_of, HEADER_LEN,
};
use vstd::prelude::*;

verus! {

/// The outcome between two players as a three-way comparison: the higher
/// score wins, equal scores tie.
pub open spec fn outcome_between(first: i32, second: i32) -> Outcome {
    if first > second {
        Outcome::Winner(0)
    } else if first < second {
        Outcome::Winner(1)
    } else {
        Outcome::Tie
    }
}

/// What a session that has just been accepted makes of a player that
/// sends its identifier and then its score, both as whole headers.
pub open spec fn report(session: Session, state: MatchView, id: u32, score: i32) -> Transition {
    let announced = step_spec(session, state, EventView::Header(be_bytes(id as int)));
    step_spec(
        announced.session,
        announced.state,
        EventView::Header(be_bytes(pattern_of(score as int))),
    )
}

/// A report writes one slot and no other: the slot of the reporting
/// player holds the new score, every other slot holds what it held.
pub proof fn lemma_record_touches_one_slot(state: MatchView, id: int, score: i32, other: int)
    requires
        0 <= id < state.slots.len(),
        0 <= other < state.slots.len(),
        other != id,
    ensures
        state.record(id, score).slots[id] == Some(score),
        state.record(id, score).slots[other] == state.slots[other],
        state.record(id, score).slots.len() == state.slots.len(),
        state.record(id, score).results == state.results,
        state.record(id, score).player_count == state.player_count,
        state.record(id, score).expired == state.expired,
{
}

/// Reports of different players do not interfere: in either order they
/// lead to the same state.
pub proof fn lemma_records_commute(
    state: MatchView,
    id_a: int,
    score_a: i32,
    id_b: int,
    score_b: i32,
)
    requires
        0 <= id_a < state.slots.len(),
        0 <= id_b < state.slots.len(),
        id_a != id_b,
    ensures
        state.record(id_a, score_a).record(id_b, score_b) == state.record(id_b, score_b).record(
            id_a,
            score_a,
        ),
{
    assert(state.record(id_a, score_a).record(id_b, score_b).slots =~= state.record(
        id_b,
        score_b,
    ).record(id_a, score_a).slots);
}

/// A later report under the same identifier replaces the earlier one.
pub proof fn lemma_last_report_wins(state: MatchView, id: int, earlier: i32, later: i32)
    requires
        0 <= id < state.slots.len(),
    ensures
        state.record(id, earlier).record(id, later) == state.record(id, later),
{
    assert(state.record(id, earlier).record(id, later).slots =~= state.record(id, later).slots);
}

/// No step corrupts a consistent state or changes the number of players.
pub proof fn lemma_step_preserves_consistency(session: Session, state: MatchView, event: EventView)
    requires
        state.wf(),
    ensures
        step_spec(session, state, event).state.wf(),
        step_spec(session, state, event).state.player_count == state.player_count,
        step_spec(session, state, event).session.deadline_ms == session.deadline_ms,
{
}

/// A session that has ended stays ended and never touches the match state
/// again.
pub proof fn lemma_finished_is_final(session: Session, state: MatchView, event: EventView)
    requires
        session.finished(),
    ensures
        step_spec(session, state, event).session.finished(),
        step_spec(session, state, event).state == state,
{
}

/// A session that fails for any reason but a timeout leaves the match
/// state exactly as it found it. This covers the truncated header, the
/// identifier that names no slot, the failed connection and the corrupted
/// state.
pub proof fn lemma_failure_touches_nothing(session: Session, state: MatchView, event: EventView)
    requires
        step_spec(session, state, event).session.phase matches Phase::Failed { error }
            && error != SessionError::Timeout,
    ensures
        step_spec(session, state, event).state == state,
{
}

/// An identifier outside the slots of a consistent match is refused when
/// the score arrives: the session ends with an invalid-identifier error,
/// or with a protocol error if the score header is truncated, and the
/// match state is untouched either way.
pub proof fn lemma_invalid_id_is_rejected(
    session: Session,
    state: MatchView,
    id: u32,
    bytes: Seq<u8>,
)
    requires
        state.wf(),
        session.phase == (Phase::AwaitScore { id }),
        id >= state.player_count,
    ensures
        step_spec(session, state, EventView::Header(bytes)).state == state,
        step_spec(session, state, EventView::Header(bytes)).session.phase == (Phase::Failed {
            error: if bytes.len() == HEADER_LEN {
                SessionError::InvalidId
            } else {
                SessionError::Protocol
            },
        }),
{
}

/// Once a match has been given up, a report that arrives late is refused
/// with a timeout and changes nothing.
pub proof fn lemma_late_report_is_refused(
    session: Session,
    state: MatchView,
    id: u32,
    bytes: Seq<u8>,
)
    requires
        state.wf(),
        state.expired,
        session.phase == (Phase::AwaitScore { id }),
        id < state.player_count,
        bytes.len() == HEADER_LEN,
    ensures
        step_spec(session, state, EventView::Header(bytes)).state == state,
        step_spec(session, state, EventView::Header(bytes)).session.phase == (Phase::Failed {
            error: SessionError::Timeout,
        }),
{
}

/// The result text is a function of the score vector alone: whichever
/// session looks at the barrier, after whatever wait, and whatever else
/// the two states hold, equal slots give equal text.
pub proof fn lemma_result_depends_on_scores_only(
    session_a: Session,
    state_a: MatchView,
    waited_a: u64,
    session_b: Session,
    state_b: MatchView,
    waited_b: u64,
)
    requires
        state_a.wf() && !state_a.expired && state_a.complete(),
        state_b.wf() && !state_b.expired && state_b.complete(),
        state_a.slots == state_b.slots,
        session_a.phase is AwaitBarrier,
        session_b.phase is AwaitBarrier,
    ensures
        step_spec(session_a, state_a, EventView::Barrier { waited_ms: waited_a }).action
            == step_spec(session_b, state_b, EventView::Barrier { waited_ms: waited_b }).action,
        step_spec(session_a, state_a, EventView::Barrier { waited_ms: waited_a }).action
            == (ActionView::Send {
            message: text_of(outcome_of(state_a.scores())),
            wake_peers: false,
        }),
{
}

/// Passing the barrier changes no slot, so the sessions of a complete
/// match pass it one after the other, in either order, and each is handed
/// the same text: that of the outcome of the score vector.
pub proof fn lemma_same_text_in_any_order(
    state: MatchView,
    session_a: Session,
    waited_a: u64,
    session_b: Session,
    waited_b: u64,
)
    requires
        state.wf() && !state.expired && state.complete(),
        session_a.phase is AwaitBarrier,
        session_b.phase is AwaitBarrier,
    ensures
        ({
            let text = text_of(outcome_of(state.scores()));
            let sent = ActionView::Send { message: text, wake_peers: false };
            let a_first = step_spec(session_a, state, EventView::Barrier { waited_ms: waited_a });
            let b_second = step_spec(
                session_b,
                a_first.state,
                EventView::Barrier { waited_ms: waited_b },
            );
            let b_first = step_spec(session_b, state, EventView::Barrier { waited_ms: waited_b });
            let a_second = step_spec(
                session_a,
                b_first.state,
                EventView::Barrier { waited_ms: waited_a },
            );
            &&& a_first.action == sent && b_second.action == sent
            &&& b_first.action == sent && a_second.action == sent
            &&& a_first.session.phase is Done && b_second.session.phase is Done
            &&& b_second.state == a_second.state
            &&& b_second.state.slots == state.slots
            &&& forall|i: int| 0 <= i < state.player_count ==> b_second.state.results[i] == text
        }),
{
}

/// A session that has just been accepted and receives a valid identifier
/// and a score records exactly that score in exactly that slot, provided
/// the match is consistent and not given up.
pub proof fn lemma_report_records(session: Session, state: MatchView, id: u32, score: i32)
    requires
        session.phase is AwaitId,
        state.wf(),
        !state.expired,
        id < state.player_count,
    ensures
        report(session, state, id, score) == barrier_spec(
            Session { phase: Phase::AwaitBarrier { id }, ..session },
            state.record(id as int, score),
            0,
            true,
        ),
        report(session, state, id, score).state.slots == state.slots.update(
            id as int,
            Some(score),
        ),
{
    lemma_value_round_trip(id as int);
    lemma_signed_round_trip(score as int, 0);
    lemma_value_round_trip(pattern_of(score as int));
    let announced = step_spec(session, state, EventView::Header(be_bytes(id as int)));
    assert(announced.session.phase == (Phase::AwaitScore { id }));
    assert(announced.state == state);
}

/// Two players, two sessions, any scores: the session that reports first
/// is told to wait for its whole deadline, the one that reports second
/// fills the last slot and is handed the result at once together with the
/// order to wake its peer, and the first, when it next looks at the
/// barrier, is handed the same text. The text is that of the three-way
/// comparison of the score in slot 0 with the score in slot 1.
pub proof fn theorem_pair_receives_same_text(
    id_a: u32,
    score_a: i32,
    deadline_a: u64,
    id_b: u32,
    score_b: i32,
    deadline_b: u64,
    waited: u64,
)
    requires
        id_a < 2,
        id_b < 2,
        id_a != id_b,
        deadline_a > 0,
    ensures
        ({
            let a = report(
                Session { phase: Phase::AwaitId, deadline_ms: deadline_a },
                MatchView::fresh(2),
                id_a,
                score_a,
            );
            let b = report(
                Session { phase: Phase::AwaitId, deadline_ms: deadline_b },
                a.state,
                id_b,
                score_b,
            );
            let a_woken = step_spec(a.session, b.state, EventView::Barrier { waited_ms: waited });
            let text = text_of(
                if id_a == 0 {
                    outcome_between(score_a, score_b)
                } else {
                    outcome_between(score_b, score_a)
                },
            );
            &&& a.action == ActionView::Wait { budget_ms: deadline_a }
            &&& b.action == ActionView::Send { message: text, wake_peers: true }
            &&& a_woken.action == ActionView::Send { message: text, wake_peers: false }
            &&& b.session.phase is Done && a_woken.session.phase is Done
        }),
{
    let start = MatchView::fresh(2);
    let session_a = Session { phase: Phase::AwaitId, deadline_ms: deadline_a };
    let session_b = Session { phase: Phase::AwaitId, deadline_ms: deadline_b };
    lemma_report_records(session_a, start, id_a, score_a);
    let after_a = start.record(id_a as int, score_a);
    assert(after_a.slots[id_b as int] is None);
    assert(!after_a.complete());
    let a = report(session_a, start, id_a, score_a);
    assert(a.state == after_a);
    lemma_report_records(session_b, after_a, id_b, score_b);
    let after_b = after_a.record(id_b as int, score_b);
    assert(after_b.complete());
    let first = if id_a == 0 {
        score_a
    } else {
        score_b
    };
    let second = if id_a == 0 {
        score_b
    } else {
        score_a
    };
    assert(after_b.scores() =~= seq![first, second]);
    lemma_outcome_of_two(first, second);
    let b = report(session_b, a.state, id_b, score_b);
    assert(b.state.slots == after_b.slots);
    assert(b.state.scores() =~= after_b.scores());
}

/// A session cannot wait past its deadline. While the match is
/// incomplete, a look at the barrier before the deadline is answered by a
/// wait for exactly the time that is left and changes nothing; a look at
/// or after the deadline ends the session with a timeout and gives the
/// match up.
pub proof fn theorem_wait_ends_at_deadline(session: Session, state: MatchView, waited: u64)
    requires
        session.phase is AwaitBarrier,
        state.wf(),
        !state.expired,
        !state.complete(),
    ensures
        ({
            let looked = step_spec(session, state, EventView::Barrier { waited_ms: waited });
            if waited < session.deadline_ms {
                &&& looked.session == session
                &&& looked.state == state
                &&& looked.action matches ActionView::Wait { budget_ms }
                &&& waited + budget_ms == session.deadline_ms
            } else {
                &&& looked.session.phase == (Phase::Failed { error: SessionError::Timeout })
                &&& looked.action == (ActionView::Abort { error: SessionError::Timeout })
                &&& looked.state == state.expire()
            }
        }),
{
}

/// If only some of the players ever report, no session waits forever: the
/// one that used up the wait it was granted and finds the match still
/// incomplete fails with a timeout on that very look.
pub proof fn theorem_lone_player_times_out(
    session: Session,
    state: MatchView,
    waited: u64,
    later: u64,
)
    requires
        session.phase is AwaitBarrier,
        state.wf(),
        !state.expired,
        !state.complete(),
        waited < session.deadline_ms,
        later >= session.deadline_ms,
    ensures
        ({
            let granted = step_spec(session, state, EventView::Barrier { waited_ms: waited });
            let expired = step_spec(
                granted.session,
                granted.state,
                EventView::Barrier { waited_ms: later },
            );
            &&& granted.action matches ActionView::Wait { budget_ms }
            &&& waited + budget_ms <= later
            &&& expired.session.phase == (Phase::Failed { error: SessionError::Timeout })
            &&& expired.action == (ActionView::Abort { error: SessionError::Timeout })
        }),
{
}

} // verus!
