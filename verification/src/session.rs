//! The protocol that carries one player through a match, as a state
//! machine: await the identifier, await the score, wait at the barrier
//! until every player has reported, deliver the result.
//!
//! The machine performs no input or output and never blocks. Its driver
//! reads, waits and writes, tells the machine what happened as an `Event`,
//! and is told what to do next as an `Action`. The shared match state is
//! only touched inside `Session::step`, so a driver that holds the lock on
//! it for the length of that call, and for nothing else, keeps every read
//! and write of the state exclusive and every network operation outside
//! the lock.

use crate::error::SessionError;
use crate::match_state::{MatchState, MatchView};
use crate::outcome::{outcome_of, text_of};
use crate::wire::{decode_player_id, decode_score, player_id_of, score_of, HEADER_LEN};
use vstd::prelude::*;

verus! {

/// Where a session stands in the protocol.
#[derive(Clone, Copy, Debug, PartialEq, Eq, Structural)]
pub enum Phase {
    /// Waiting for the header that holds the player identifier.
    AwaitId,
    /// Waiting for the header that holds the final score.
    AwaitScore { id: u32 },
    /// The score is recorded; waiting for the other players.
    AwaitBarrier { id: u32 },
    /// The result was handed out for delivery.
    Done,
    /// The session ended without a result.
    Failed { error: SessionError },
}

/// One player's session.
#[derive(Clone, Copy, Debug, PartialEq, Eq, Structural)]
pub struct Session {
    /// Where the session stands.
    pub phase: Phase,
    /// How long the session may wait at the barrier, in milliseconds.
    pub deadline_ms: u64,
}

/// What the driver reports to the machine.
#[derive(Debug, PartialEq, Eq)]
pub enum Event {
    /// The bytes that reading one header produced: all four, or fewer when
    /// the stream ended first.
    Header(Vec<u8>),
    /// The session looks at the barrier after having waited there for
    /// `waited_ms` milliseconds in all.
    Barrier { waited_ms: u64 },
    /// Reading from or writing to the connection failed.
    IoFailure,
}

/// The mathematical content of an `Event`.
pub enum EventView {
    Header(Seq<u8>),
    Barrier { waited_ms: u64 },
    IoFailure,
}

impl View for Event {
    type V = EventView;

    open spec fn view(&self) -> EventView {
        match *self {
            Event::Header(bytes) => EventView::Header(bytes@),
            Event::Barrier { waited_ms } => EventView::Barrier { waited_ms },
            Event::IoFailure => EventView::IoFailure,
        }
    }
}

/// What the machine asks of the driver.
#[derive(Debug, PartialEq, Eq)]
pub enum Action {
    /// Read the next header of four bytes and report it.
    ReadHeader,
    /// Block until woken by a peer, but for at most `budget_ms`
    /// milliseconds, then report the barrier again.
    Wait { budget_ms: u64 },
    /// Write `message` to the connection, flush it and close both
    /// directions. With `wake_peers` set, first wake every session that
    /// waits at the barrier: this session has filled the last slot.
    Send { message: String, wake_peers: bool },
    /// Close the connection without a result; `error` says why.
    Abort { error: SessionError },
    /// Nothing is left to do.
    Finished,
}

/// The mathematical content of an `Action`.
pub enum ActionView {
    ReadHeader,
    Wait { budget_ms: u64 },
    Send { message: Seq<char>, wake_peers: bool },
    Abort { error: SessionError },
    Finished,
}

impl View for Action {
    type V = ActionView;

    open spec fn view(&self) -> ActionView {
        match *self {
            Action::ReadHeader => ActionView::ReadHeader,
            Action::Wait { budget_ms } => ActionView::Wait { budget_ms },
            Action::Send { message, wake_peers } => ActionView::Send {
                message: message@,
                wake_peers,
            },
            Action::Abort { error } => ActionView::Abort { error },
            Action::Finished => ActionView::Finished,
        }
    }
}

/// One step of the machine: the session and the match state after it, and
/// what the driver is asked to do.
pub struct Transition {
    pub session: Session,
    pub state: MatchView,
    pub action: ActionView,
}

/// The step that ends a session with `error`. The match state is whatever
/// the caller passes on.
pub open spec fn failed(session: Session, state: MatchView, error: SessionError) -> Transition {
    Transition {
        session: Session { phase: Phase::Failed { error }, ..session },
        state,
        action: ActionView::Abort { error },
    }
}

/// What a session at the barrier does after `waited_ms` milliseconds.
///
/// A corrupted state ends it with a state invariant violation, a match
/// that a peer gave up with a timeout. On a complete match it computes the
/// result from the score vector, caches it for every player and hands it
/// out. Otherwise it gives the match up once its deadline is reached, and
/// until then waits for exactly the time that is left.
pub open spec fn barrier_spec(
    session: Session,
    state: MatchView,
    waited_ms: u64,
    wake_peers: bool,
) -> Transition {
    if !state.wf() {
        failed(session, state, SessionError::StateInvariantViolation)
    } else if state.expired {
        failed(session, state, SessionError::Timeout)
    } else if state.complete() {
        let text = text_of(outcome_of(state.scores()));
        Transition {
            session: Session { phase: Phase::Done, ..session },
            state: state.publish(text),
            action: ActionView::Send { message: text, wake_peers },
        }
    } else if waited_ms >= session.deadline_ms {
        failed(session, state.expire(), SessionError::Timeout)
    } else {
        Transition {
            session,
            state,
            action: ActionView::Wait { budget_ms: (session.deadline_ms - waited_ms) as u64 },
        }
    }
}

/// What a session that awaits its score does with the header `bytes`,
/// having announced the identifier `id`.
///
/// A truncated header is a protocol error. Only then is the identifier
/// looked at: a refused report ends the session and leaves the match
/// state untouched. An accepted one is recorded, and the session is at
/// the barrier at once, with no time waited yet.
pub open spec fn score_spec(session: Session, state: MatchView, id: u32, bytes: Seq<u8>)
    -> Transition {
    if bytes.len() != HEADER_LEN {
        failed(session, state, SessionError::Protocol)
    } else {
        match state.rejection(id as int) {
            Some(error) => failed(session, state, error),
            None => barrier_spec(
                Session { phase: Phase::AwaitBarrier { id }, ..session },
                state.record(id as int, score_of(bytes) as i32),
                0,
                true,
            ),
        }
    }
}

/// The transition function of the session machine.
///
/// A finished session stays finished, except that a failed delivery turns
/// `Done` into a connection failure. An input or output failure ends any
/// running session. An event that the phase does not expect is a protocol
/// error. None of these touches the match state.
pub open spec fn step_spec(session: Session, state: MatchView, event: EventView) -> Transition {
    match (session.phase, event) {
        (Phase::Failed { error }, _) => Transition {
            session,
            state,
            action: ActionView::Abort { error },
        },
        (_, EventView::IoFailure) => failed(session, state, SessionError::Connection),
        (Phase::Done, _) => Transition { session, state, action: ActionView::Finished },
        (Phase::AwaitId, EventView::Header(bytes)) => {
            if bytes.len() != HEADER_LEN {
                failed(session, state, SessionError::Protocol)
            } else {
                Transition {
                    session: Session {
                        phase: Phase::AwaitScore { id: player_id_of(bytes) as u32 },
                        ..session
                    },
                    state,
                    action: ActionView::ReadHeader,
                }
            }
        },
        (Phase::AwaitScore { id }, EventView::Header(bytes)) => score_spec(
            session,
            state,
            id,
            bytes,
        ),
        (Phase::AwaitBarrier { id }, EventView::Barrier { waited_ms }) => barrier_spec(
            session,
            state,
            waited_ms,
            false,
        ),
        _ => failed(session, state, SessionError::Protocol),
    }
}

impl Session {
    /// A session that has just been accepted and may wait at the barrier
    /// for `deadline_ms` milliseconds.
    pub fn new(deadline_ms: u64) -> (session: Session)
        ensures
            session == (Session { phase: Phase::AwaitId, deadline_ms }),
    {
        Session { phase: Phase::AwaitId, deadline_ms }
    }

    /// Where the session stands.
    pub fn phase(&self) -> (phase: Phase)
        ensures
            phase == self.phase,
    {
        self.phase
    }

    /// Whether the session has ended, with or without a result.
    pub open spec fn finished(self) -> bool {
        self.phase is Done || self.phase is Failed
    }

    /// Whether the session has ended, with or without a result.
    pub fn is_finished(&self) -> (finished: bool)
        ensures
            finished == self.finished(),
    {
        match self.phase {
            Phase::Done => true,
            Phase::Failed { .. } => true,
            _ => false,
        }
    }

    /// What the driver of a session that has just been accepted does first.
    pub fn start(&self) -> (action: Action)
        ensures
            action@ == ActionView::ReadHeader,
    {
        Action::ReadHeader
    }

    /// Ends the session with `error`.
    fn fail(&mut self, error: SessionError) -> (action: Action)
        ensures
            *final(self) == (Session { phase: Phase::Failed { error }, ..*old(self) }),
            action@ == (ActionView::Abort { error }),
    {
        self.phase = Phase::Failed { error };
        Action::Abort { error }
    }

    /// Looks at the barrier after `waited_ms` milliseconds of waiting.
    fn look_at_barrier(&mut self, state: &mut MatchState, waited_ms: u64, wake_peers: bool) -> (action:
        Action)
        ensures
            *final(self) == barrier_spec(*old(self), old(state)@, waited_ms, wake_peers).session,
            final(state)@ == barrier_spec(*old(self), old(state)@, waited_ms, wake_peers).state,
            action@ == barrier_spec(*old(self), old(state)@, waited_ms, wake_peers).action,
    {
        if state.check_invariant().is_err() {
            return self.fail(SessionError::StateInvariantViolation);
        }
        if state.is_expired() {
            return self.fail(SessionError::Timeout);
        }
        match state.outcome() {
            Some(outcome) => {
                let message = outcome.message();
                state.publish(&message);
                self.phase = Phase::Done;
                Action::Send { message, wake_peers }
            },
            None => {
                if waited_ms >= self.deadline_ms {
                    state.expire();
                    self.fail(SessionError::Timeout)
                } else {
                    Action::Wait { budget_ms: self.deadline_ms - waited_ms }
                }
            },
        }
    }

    /// Takes the header that holds the score of the player `id`.
    fn take_score(&mut self, state: &mut MatchState, id: u32, bytes: &[u8]) -> (action: Action)
        ensures
            *final(self) == score_spec(*old(self), old(state)@, id, bytes@).session,
            final(state)@ == score_spec(*old(self), old(state)@, id, bytes@).state,
            action@ == score_spec(*old(self), old(state)@, id, bytes@).action,
    {
        let score = match decode_score(bytes) {
            Ok(score) => score,
            Err(error) => {
                return self.fail(error);
            },
        };
        match state.record_score(id, score) {
            Ok(_) => {
                self.phase = Phase::AwaitBarrier { id };
                self.look_at_barrier(state, 0, true)
            },
            Err(error) => self.fail(error),
        }
    }

    /// Advances the session by one event and says what the driver is to
    /// do next.
    ///
    /// The session, the match state and the action after the step are
    /// exactly those of `step_spec`.
    pub fn step(&mut self, state: &mut MatchState, event: Event) -> (action: Action)
        ensures
            *final(self) == step_spec(*old(self), old(state)@, event@).session,
            final(state)@ == step_spec(*old(self), old(state)@, event@).state,
            action@ == step_spec(*old(self), old(state)@, event@).action,
    {
        match self.phase {
            Phase::Failed { error } => {
                return Action::Abort { error };
            },
            _ => {},
        }
        match event {
            Event::IoFailure => self.fail(SessionError::Connection),
            Event::Header(bytes) => match self.phase {
                Phase::Done => Action::Finished,
                Phase::AwaitId => match decode_player_id(bytes.as_slice()) {
                    Ok(id) => {
                        self.phase = Phase::AwaitScore { id };
                        Action::ReadHeader
                    },
                    Err(error) => self.fail(error),
                },
                Phase::AwaitScore { id } => self.take_score(state, id, bytes.as_slice()),
                _ => self.fail(SessionError::Protocol),
            },
            Event::Barrier { waited_ms } => match self.phase {
                Phase::Done => Action::Finished,
                Phase::AwaitBarrier { id } => self.look_at_barrier(state, waited_ms, false),
                _ => self.fail(SessionError::Protocol),
            },
        }
    }
}

} // verus!
