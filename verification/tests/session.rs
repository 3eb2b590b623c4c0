use score_match::error::SessionError;
use score_match::match_state::MatchState;
use score_match::session::{Action, Event, Phase, Session};
use score_match::wire::{encode_player_id, encode_score};

fn id_header(id: u32) -> Event {
    Event::Header(encode_player_id(id).to_vec())
}

fn score_header(score: i32) -> Event {
    Event::Header(encode_score(score).to_vec())
}

fn send(text: &str, wake_peers: bool) -> Action {
    Action::Send { message: String::from(text), wake_peers }
}

fn abort(error: SessionError) -> Action {
    Action::Abort { error }
}

/// Runs one player up to the barrier and returns its session with the
/// action that the score header produced.
fn report(state: &mut MatchState, id: u32, score: i32, deadline_ms: u64) -> (Session, Action) {
    let mut session = Session::new(deadline_ms);
    assert_eq!(session.start(), Action::ReadHeader);
    assert_eq!(session.step(state, id_header(id)), Action::ReadHeader);
    assert_eq!(session.phase(), Phase::AwaitScore { id });
    let action = session.step(state, score_header(score));
    (session, action)
}

#[test]
fn new_session_awaits_the_identifier() {
    let session = Session::new(250);
    assert_eq!(session.phase(), Phase::AwaitId);
    assert_eq!(session.deadline_ms, 250);
    assert!(!session.is_finished());
    assert_eq!(session.start(), Action::ReadHeader);
}

#[test]
fn higher_second_score_makes_player_two_win() {
    let mut state = MatchState::new(2);
    let (mut first, action) = report(&mut state, 0, 10, 1000);
    assert_eq!(action, Action::Wait { budget_ms: 1000 });
    assert_eq!(first.phase(), Phase::AwaitBarrier { id: 0 });
    let (second, action) = report(&mut state, 1, 20, 1000);
    assert_eq!(action, send("Player 2 wins!", true));
    assert_eq!(second.phase(), Phase::Done);
    let action = first.step(&mut state, Event::Barrier { waited_ms: 3 });
    assert_eq!(action, send("Player 2 wins!", false));
    assert_eq!(first.phase(), Phase::Done);
    assert!(first.is_finished() && second.is_finished());
}

#[test]
fn equal_scores_give_both_a_tie() {
    let mut state = MatchState::new(2);
    let (mut first, action) = report(&mut state, 0, 5, 1000);
    assert_eq!(action, Action::Wait { budget_ms: 1000 });
    let (_, action) = report(&mut state, 1, 5, 1000);
    assert_eq!(action, send("It's a tie!", true));
    let action = first.step(&mut state, Event::Barrier { waited_ms: 0 });
    assert_eq!(action, send("It's a tie!", false));
}

#[test]
fn higher_first_score_makes_player_one_win() {
    let mut state = MatchState::new(2);
    let (mut first, _) = report(&mut state, 1, 3, 1000);
    let (_, action) = report(&mut state, 0, 4, 1000);
    assert_eq!(action, send("Player 1 wins!", true));
    let action = first.step(&mut state, Event::Barrier { waited_ms: 999 });
    assert_eq!(action, send("Player 1 wins!", false));
}

#[test]
fn both_receive_identical_bytes_for_many_pairs() {
    let scores = [i32::MIN, -7, -1, 0, 1, 5, 20, i32::MAX];
    for &(id_a, id_b) in &[(0u32, 1u32), (1, 0)] {
        for &score_a in &scores {
            for &score_b in &scores {
                let mut state = MatchState::new(2);
                let (mut a, waiting) = report(&mut state, id_a, score_a, 50);
                assert_eq!(waiting, Action::Wait { budget_ms: 50 });
                let (_, to_b) = report(&mut state, id_b, score_b, 50);
                let to_a = a.step(&mut state, Event::Barrier { waited_ms: 1 });
                let (zero, one) = if id_a == 0 { (score_a, score_b) } else { (score_b, score_a) };
                let expected = if zero > one {
                    "Player 1 wins!"
                } else if zero < one {
                    "Player 2 wins!"
                } else {
                    "It's a tie!"
                };
                assert_eq!(to_b, send(expected, true));
                assert_eq!(to_a, send(expected, false));
                match (to_a, to_b) {
                    (Action::Send { message: x, .. }, Action::Send { message: y, .. }) => {
                        assert_eq!(x.as_bytes(), y.as_bytes());
                    }
                    _ => unreachable!(),
                }
            }
        }
    }
}

#[test]
fn identifier_two_of_two_players_is_rejected_and_the_pair_completes() {
    let mut state = MatchState::new(2);
    let (mut first, _) = report(&mut state, 0, 10, 1000);
    let before = state.clone();
    let (intruder, action) = report(&mut state, 2, 99, 1000);
    assert_eq!(action, abort(SessionError::InvalidId));
    assert_eq!(intruder.phase(), Phase::Failed { error: SessionError::InvalidId });
    assert_eq!(state, before);
    let (_, action) = report(&mut state, 1, 20, 1000);
    assert_eq!(action, send("Player 2 wins!", true));
    let action = first.step(&mut state, Event::Barrier { waited_ms: 10 });
    assert_eq!(action, send("Player 2 wins!", false));
}

#[test]
fn invalid_identifier_is_only_rejected_when_the_score_arrives() {
    let mut state = MatchState::new(2);
    let mut session = Session::new(1000);
    assert_eq!(session.step(&mut state, id_header(7)), Action::ReadHeader);
    assert_eq!(session.phase(), Phase::AwaitScore { id: 7 });
    assert_eq!(session.step(&mut state, score_header(1)), abort(SessionError::InvalidId));
    assert_eq!(state, MatchState::new(2));
}

#[test]
fn truncated_identifier_is_a_protocol_error() {
    let mut state = MatchState::new(2);
    let mut session = Session::new(1000);
    let action = session.step(&mut state, Event::Header(vec![0, 0, 1]));
    assert_eq!(action, abort(SessionError::Protocol));
    assert_eq!(session.phase(), Phase::Failed { error: SessionError::Protocol });
    assert_eq!(state, MatchState::new(2));
}

#[test]
fn closed_stream_is_a_protocol_error() {
    let mut state = MatchState::new(2);
    let mut session = Session::new(1000);
    assert_eq!(session.step(&mut state, Event::Header(vec![])), abort(SessionError::Protocol));
    assert_eq!(state, MatchState::new(2));
}

#[test]
fn truncated_score_is_a_protocol_error_before_the_identifier_is_checked() {
    let mut state = MatchState::new(2);
    let mut session = Session::new(1000);
    session.step(&mut state, id_header(0));
    assert_eq!(
        session.step(&mut state, Event::Header(vec![0, 0])),
        abort(SessionError::Protocol)
    );
    assert_eq!(state, MatchState::new(2));
    let mut other = Session::new(1000);
    other.step(&mut state, id_header(9));
    assert_eq!(other.step(&mut state, Event::Header(vec![1])), abort(SessionError::Protocol));
    assert_eq!(state, MatchState::new(2));
}

#[test]
fn failed_read_is_a_connection_error() {
    let mut state = MatchState::new(2);
    let mut session = Session::new(1000);
    assert_eq!(session.step(&mut state, Event::IoFailure), abort(SessionError::Connection));
    let mut later = Session::new(1000);
    later.step(&mut state, id_header(1));
    assert_eq!(later.step(&mut state, Event::IoFailure), abort(SessionError::Connection));
    assert_eq!(later.phase(), Phase::Failed { error: SessionError::Connection });
    assert_eq!(state, MatchState::new(2));
}

#[test]
fn failed_delivery_abandons_the_session_only() {
    let mut state = MatchState::new(2);
    let (mut first, _) = report(&mut state, 0, 10, 1000);
    let (mut second, _) = report(&mut state, 1, 20, 1000);
    let before = state.clone();
    assert_eq!(second.step(&mut state, Event::IoFailure), abort(SessionError::Connection));
    assert_eq!(second.phase(), Phase::Failed { error: SessionError::Connection });
    assert_eq!(state, before);
    let action = first.step(&mut state, Event::Barrier { waited_ms: 1 });
    assert_eq!(action, send("Player 2 wins!", false));
}

#[test]
fn lone_player_times_out_at_the_deadline() {
    let mut state = MatchState::new(2);
    let (mut lone, action) = report(&mut state, 0, 10, 100);
    assert_eq!(action, Action::Wait { budget_ms: 100 });
    assert_eq!(
        lone.step(&mut state, Event::Barrier { waited_ms: 40 }),
        Action::Wait { budget_ms: 60 }
    );
    assert_eq!(
        lone.step(&mut state, Event::Barrier { waited_ms: 99 }),
        Action::Wait { budget_ms: 1 }
    );
    assert!(!state.is_expired());
    assert_eq!(
        lone.step(&mut state, Event::Barrier { waited_ms: 100 }),
        abort(SessionError::Timeout)
    );
    assert_eq!(lone.phase(), Phase::Failed { error: SessionError::Timeout });
    assert!(state.is_expired());
    assert_eq!(state.slots, vec![Some(10), None]);
}

#[test]
fn timeout_is_distinct_from_a_lost_connection() {
    let mut state = MatchState::new(2);
    let (mut lone, _) = report(&mut state, 0, 10, 5);
    let timed_out = lone.step(&mut state, Event::Barrier { waited_ms: u64::MAX });
    let mut other_state = MatchState::new(2);
    let (mut dropped, _) = report(&mut other_state, 0, 10, 5);
    let lost = dropped.step(&mut other_state, Event::IoFailure);
    assert_eq!(timed_out, abort(SessionError::Timeout));
    assert_eq!(lost, abort(SessionError::Connection));
    assert_ne!(timed_out, lost);
    assert!(!other_state.is_expired());
}

#[test]
fn zero_deadline_times_out_at_once() {
    let mut state = MatchState::new(2);
    let (lone, action) = report(&mut state, 1, 10, 0);
    assert_eq!(action, abort(SessionError::Timeout));
    assert_eq!(lone.phase(), Phase::Failed { error: SessionError::Timeout });
    assert!(state.is_expired());
}

#[test]
fn zero_deadline_does_not_hinder_the_one_who_completes() {
    let mut state = MatchState::new(2);
    let (mut first, _) = report(&mut state, 0, 1, 1000);
    let (_, action) = report(&mut state, 1, 2, 0);
    assert_eq!(action, send("Player 2 wins!", true));
    let action = first.step(&mut state, Event::Barrier { waited_ms: 5000 });
    assert_eq!(action, send("Player 2 wins!", false));
}

#[test]
fn late_arrival_after_a_timeout_is_rejected() {
    let mut state = MatchState::new(2);
    let (mut lone, _) = report(&mut state, 0, 10, 100);
    assert_eq!(
        lone.step(&mut state, Event::Barrier { waited_ms: 150 }),
        abort(SessionError::Timeout)
    );
    let before = state.clone();
    let (late, action) = report(&mut state, 1, 20, 100);
    assert_eq!(action, abort(SessionError::Timeout));
    assert_eq!(late.phase(), Phase::Failed { error: SessionError::Timeout });
    assert_eq!(state, before);
}

#[test]
fn waiting_peer_learns_of_the_given_up_match() {
    let mut state = MatchState::new(3);
    let (mut a, _) = report(&mut state, 0, 1, 100);
    let (mut b, _) = report(&mut state, 1, 2, 5000);
    assert_eq!(a.step(&mut state, Event::Barrier { waited_ms: 100 }), abort(SessionError::Timeout));
    assert_eq!(b.step(&mut state, Event::Barrier { waited_ms: 101 }), abort(SessionError::Timeout));
}

#[test]
fn corrupted_state_is_a_fatal_violation() {
    let mut state = MatchState::new(2);
    state.results.pop();
    let before = state.clone();
    let (session, action) = report(&mut state, 0, 10, 100);
    assert_eq!(action, abort(SessionError::StateInvariantViolation));
    assert_eq!(session.phase(), Phase::Failed { error: SessionError::StateInvariantViolation });
    assert_eq!(state, before);
    match action {
        Action::Abort { error } => assert!(error.is_fatal()),
        _ => unreachable!(),
    }
}

#[test]
fn corruption_found_at_the_barrier_is_a_violation() {
    let mut state = MatchState::new(2);
    let (mut waiting, _) = report(&mut state, 0, 10, 100);
    state.slots.push(Some(3));
    let before = state.clone();
    assert_eq!(
        waiting.step(&mut state, Event::Barrier { waited_ms: 1 }),
        abort(SessionError::StateInvariantViolation)
    );
    assert_eq!(state, before);
}

#[test]
fn event_out_of_turn_is_a_protocol_error() {
    let mut state = MatchState::new(2);
    let mut early = Session::new(100);
    assert_eq!(
        early.step(&mut state, Event::Barrier { waited_ms: 0 }),
        abort(SessionError::Protocol)
    );
    let (mut waiting, _) = report(&mut state, 0, 10, 100);
    let before = state.clone();
    assert_eq!(waiting.step(&mut state, score_header(11)), abort(SessionError::Protocol));
    assert_eq!(state, before);
}

#[test]
fn finished_session_stays_finished() {
    let mut state = MatchState::new(1);
    let (mut done, action) = report(&mut state, 0, 10, 100);
    assert_eq!(action, send("Player 1 wins!", true));
    let before = state.clone();
    assert_eq!(done.step(&mut state, score_header(50)), Action::Finished);
    assert_eq!(done.step(&mut state, Event::Barrier { waited_ms: 1 }), Action::Finished);
    assert_eq!(done.phase(), Phase::Done);
    let mut failed = Session::new(100);
    failed.step(&mut state, Event::Header(vec![1]));
    assert_eq!(failed.step(&mut state, id_header(0)), abort(SessionError::Protocol));
    assert_eq!(failed.step(&mut state, Event::IoFailure), abort(SessionError::Protocol));
    assert_eq!(state, before);
}

#[test]
fn result_is_cached_for_every_player() {
    let mut state = MatchState::new(2);
    report(&mut state, 0, 10, 1000);
    assert_eq!(state.result_for(0), Some(String::new()));
    report(&mut state, 1, 20, 1000);
    assert_eq!(state.result_for(0), Some(String::from("Player 2 wins!")));
    assert_eq!(state.result_for(1), Some(String::from("Player 2 wins!")));
}

#[test]
fn overwriting_report_changes_what_later_sessions_receive() {
    let mut state = MatchState::new(2);
    let (mut first, _) = report(&mut state, 0, 10, 1000);
    let (_, action) = report(&mut state, 1, 20, 1000);
    assert_eq!(action, send("Player 2 wins!", true));
    let (_, action) = report(&mut state, 0, 30, 1000);
    assert_eq!(action, send("Player 1 wins!", true));
    let action = first.step(&mut state, Event::Barrier { waited_ms: 2 });
    assert_eq!(action, send("Player 1 wins!", false));
}

#[test]
fn three_players_wait_for_the_last() {
    let mut state = MatchState::new(3);
    let (mut a, action) = report(&mut state, 2, 7, 1000);
    assert_eq!(action, Action::Wait { budget_ms: 1000 });
    let (mut b, action) = report(&mut state, 0, 9, 500);
    assert_eq!(action, Action::Wait { budget_ms: 500 });
    assert_eq!(a.step(&mut state, Event::Barrier { waited_ms: 10 }), Action::Wait { budget_ms: 990 });
    let (_, action) = report(&mut state, 1, 8, 1000);
    assert_eq!(action, send("Player 1 wins!", true));
    assert_eq!(b.step(&mut state, Event::Barrier { waited_ms: 20 }), send("Player 1 wins!", false));
    assert_eq!(a.step(&mut state, Event::Barrier { waited_ms: 30 }), send("Player 1 wins!", false));
}

#[test]
fn writers_of_distinct_slots_do_not_interfere_in_any_order() {
    let reports = [(0u32, 11i32), (1, 22), (2, 33), (3, 44)];
    let orders: [[usize; 4]; 6] =
        [[0, 1, 2, 3], [3, 2, 1, 0], [1, 0, 3, 2], [2, 3, 0, 1], [0, 2, 1, 3], [3, 0, 2, 1]];
    for order in orders {
        let mut state = MatchState::new(4);
        for (done, &k) in order.iter().enumerate() {
            let (id, score) = reports[k];
            let untouched: Vec<(u32, Option<i32>)> =
                (0..4u32).filter(|other| *other != id).map(|o| (o, state.score_of(o))).collect();
            let (_, action) = report(&mut state, id, score, 1000);
            assert_eq!(matches!(action, Action::Send { .. }), done == 3);
            assert_eq!(state.score_of(id), Some(score));
            for (other, held) in untouched {
                assert_eq!(state.score_of(other), held);
            }
        }
        assert_eq!(state.scores(), Some(vec![11, 22, 33, 44]));
    }
}
