//! Why a session ended without delivering a result.

use vstd::prelude::*;

verus! {

/// The typed failure of one session.
#[derive(Clone, Copy, Debug, PartialEq, Eq, Structural)]
pub enum SessionError {
    /// Reading from or writing to the connection failed.
    Connection,
    /// A fixed-size header arrived truncated, or an event arrived that the
    /// protocol does not allow at that point.
    Protocol,
    /// The player identifier does not name a slot of the match.
    InvalidId,
    /// The barrier was not passed before the deadline, or the match had
    /// already been given up when the score arrived.
    Timeout,
    /// The shared match state is internally inconsistent.
    StateInvariantViolation,
}

impl SessionError {
    /// Whether the error must end the whole process rather than one session.
    pub open spec fn fatal(self) -> bool {
        self == SessionError::StateInvariantViolation
    }

    /// Only a corrupted shared state is fatal; every other error ends the
    /// session that met it and nothing else.
    pub fn is_fatal(&self) -> (fatal: bool)
        ensures
            fatal == self.fatal(),
    {
        match self {
            SessionError::StateInvariantViolation => true,
            _ => false,
        }
    }
}

} // verus!
