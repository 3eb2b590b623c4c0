//! The state that all sessions of one match share: one score slot per
//! expected player, one cached result text per player, and whether the
//! match has been given up.
//!
//! A slot is `None` until its player has reported; every `i32` is a score.
//! A later report under the same identifier replaces the earlier one. The
//! state is plain data so that the code that shares it between sessions can
//! hold and inspect it; every operation therefore first checks that the
//! state is consistent and refuses to touch one that is not.

use crate::error::SessionError;
use crate::outcome::{evaluate, outcome_of, Outcome};
use vstd::prelude::*;

verus! {

/// The number of players of a match when nothing else is configured.
pub const DEFAULT_PLAYER_COUNT: usize = 2;

/// The shared state of one match.
#[derive(Clone, Debug, PartialEq, Eq)]
pub struct MatchState {
    /// The number of players that the match expects.
    pub player_count: usize,
    /// The score that each player has reported, if any.
    pub slots: Vec<Option<i32>>,
    /// The result text last computed for each player; empty until then.
    pub results: Vec<String>,
    /// Whether a session has given the match up at its deadline.
    pub expired: bool,
}

/// The mathematical content of a `MatchState`.
pub struct MatchView {
    pub player_count: nat,
    pub slots: Seq<Option<i32>>,
    pub results: Seq<Seq<char>>,
    pub expired: bool,
}

impl MatchView {
    /// Slot count and result count are both exactly the player count.
    pub open spec fn wf(self) -> bool {
        &&& self.slots.len() == self.player_count
        &&& self.results.len() == self.player_count
    }

    /// Every slot holds a score.
    pub open spec fn complete(self) -> bool {
        forall|i: int| 0 <= i < self.slots.len() ==> (#[trigger] self.slots[i]) is Some
    }

    /// The score vector; meaningful once the match is complete.
    pub open spec fn scores(self) -> Seq<i32> {
        Seq::new(
            self.slots.len(),
            |i: int|
                match self.slots[i] {
                    Some(score) => score,
                    None => 0i32,
                },
        )
    }

    /// The state of a match of `player_count` players before anyone has
    /// reported.
    pub open spec fn fresh(player_count: nat) -> MatchView {
        MatchView {
            player_count,
            slots: Seq::new(player_count, |i: int| None::<i32>),
            results: Seq::new(player_count, |i: int| Seq::<char>::empty()),
            expired: false,
        }
    }

    /// Why a report under `id` is refused, if it is: a corrupted state
    /// before anything else, then an identifier that names no slot, then a
    /// match that was already given up.
    pub open spec fn rejection(self, id: int) -> Option<SessionError> {
        if !self.wf() {
            Some(SessionError::StateInvariantViolation)
        } else if !(0 <= id < self.player_count) {
            Some(SessionError::InvalidId)
        } else if self.expired {
            Some(SessionError::Timeout)
        } else {
            None
        }
    }

    /// The state after the player `id` has reported `score`.
    pub open spec fn record(self, id: int, score: i32) -> MatchView {
        MatchView { slots: self.slots.update(id, Some(score)), ..self }
    }

    /// The state after `text` has been cached as every player's result.
    pub open spec fn publish(self, text: Seq<char>) -> MatchView {
        MatchView { results: Seq::new(self.results.len(), |i: int| text), ..self }
    }

    /// The state after the match has been given up.
    pub open spec fn expire(self) -> MatchView {
        MatchView { expired: true, ..self }
    }
}

impl View for MatchState {
    type V = MatchView;

    open spec fn view(&self) -> MatchView {
        MatchView {
            player_count: self.player_count as nat,
            slots: self.slots@,
            results: Seq::new(self.results@.len(), |i: int| self.results@[i]@),
            expired: self.expired,
        }
    }
}

impl MatchState {
    /// A match of `player_count` players in which nobody has reported yet.
    pub fn new(player_count: usize) -> (state: MatchState)
        ensures
            state@ == MatchView::fresh(player_count as nat),
            state@.wf(),
    {
        let mut slots: Vec<Option<i32>> = Vec::new();
        let mut results: Vec<String> = Vec::new();
        let mut k: usize = 0;
        while k < player_count
            invariant
                k <= player_count,
                slots@.len() == k,
                results@.len() == k,
                forall|i: int| 0 <= i < k ==> slots@[i] == None::<i32>,
                forall|i: int| 0 <= i < k ==> results@[i]@ == Seq::<char>::empty(),
            decreases player_count - k,
        {
            slots.push(None);
            results.push(String::new());
            k += 1;
        }
        let state = MatchState { player_count, slots, results, expired: false };
        assert(state@.slots =~= MatchView::fresh(player_count as nat).slots);
        assert(state@.results =~= MatchView::fresh(player_count as nat).results);
        state
    }

    /// The number of players that the match expects.
    pub fn player_count(&self) -> (n: usize)
        ensures
            n == self@.player_count,
    {
        self.player_count
    }

    /// Whether a session has given the match up at its deadline.
    pub fn is_expired(&self) -> (expired: bool)
        ensures
            expired == self@.expired,
    {
        self.expired
    }

    /// Detects a corrupted state: succeeds exactly when slot count and
    /// result count both equal the player count.
    pub fn check_invariant(&self) -> (r: Result<(), SessionError>)
        ensures
            r is Ok <==> self@.wf(),
            r is Err ==> r == Err::<(), SessionError>(SessionError::StateInvariantViolation),
    {
        if self.slots.len() == self.player_count && self.results.len() == self.player_count {
            Ok(())
        } else {
            Err(SessionError::StateInvariantViolation)
        }
    }

    /// Whether every player has reported.
    pub fn is_complete(&self) -> (complete: bool)
        ensures
            complete == self@.complete(),
    {
        let mut k: usize = 0;
        while k < self.slots.len()
            invariant
                k <= self.slots@.len(),
                forall|i: int| 0 <= i < k ==> (#[trigger] self.slots@[i]) is Some,
            decreases self.slots@.len() - k,
        {
            if self.slots[k].is_none() {
                return false;
            }
            k += 1;
        }
        true
    }

    /// The score that the player `id` has reported, if the identifier
    /// names a slot and the slot is filled.
    pub fn score_of(&self, id: u32) -> (score: Option<i32>)
        ensures
            score == if id < self@.slots.len() {
                self@.slots[id as int]
            } else {
                None
            },
    {
        if (id as usize) < self.slots.len() {
            self.slots[id as usize]
        } else {
            None
        }
    }

    /// The completed score vector, or `None` while a player is missing.
    pub fn scores(&self) -> (scores: Option<Vec<i32>>)
        ensures
            scores is Some <==> self@.complete(),
            scores matches Some(v) ==> v@ == self@.scores(),
    {
        let mut scores: Vec<i32> = Vec::new();
        let mut k: usize = 0;
        while k < self.slots.len()
            invariant
                k <= self.slots@.len(),
                scores@.len() == k,
                forall|i: int| 0 <= i < k ==> (#[trigger] self.slots@[i]) is Some,
                forall|i: int| 0 <= i < k ==> scores@[i] == self@.scores()[i],
            decreases self.slots@.len() - k,
        {
            match self.slots[k] {
                Some(score) => scores.push(score),
                None => return None,
            }
            k += 1;
        }
        assert(scores@ =~= self@.scores());
        Some(scores)
    }

    /// The outcome of the match, or `None` while a player is missing.
    pub fn outcome(&self) -> (outcome: Option<Outcome>)
        ensures
            outcome == if self@.complete() {
                Some(outcome_of(self@.scores()))
            } else {
                None
            },
    {
        match self.scores() {
            Some(scores) => Some(evaluate(scores.as_slice())),
            None => None,
        }
    }

    /// Stores the score that the player `id` reports.
    ///
    /// The report is refused, and the state left as it was, when the state
    /// is corrupted, when `id` names no slot, or when the match was already
    /// given up. Otherwise the slot `id` takes the new score, replacing an
    /// earlier one, no other slot changes, and the result says whether the
    /// match is now complete.
    pub fn record_score(&mut self, id: u32, score: i32) -> (r: Result<bool, SessionError>)
        ensures
            match r {
                Ok(complete) => {
                    &&& old(self)@.rejection(id as int) is None
                    &&& final(self)@ == old(self)@.record(id as int, score)
                    &&& complete == final(self)@.complete()
                },
                Err(e) => {
                    &&& old(self)@.rejection(id as int) == Some(e)
                    &&& *final(self) == *old(self)
                },
            },
    {
        if self.slots.len() != self.player_count || self.results.len() != self.player_count {
            return Err(SessionError::StateInvariantViolation);
        }
        if id as usize >= self.player_count {
            return Err(SessionError::InvalidId);
        }
        if self.expired {
            return Err(SessionError::Timeout);
        }
        self.slots.set(id as usize, Some(score));
        assert(self@.results =~= old(self)@.results);
        Ok(self.is_complete())
    }

    /// Caches `text` as the result of every player.
    pub fn publish(&mut self, text: &String)
        ensures
            final(self)@ == old(self)@.publish(text@),
    {
        let mut k: usize = 0;
        while k < self.results.len()
            invariant
                k <= self.results@.len(),
                self.results@.len() == old(self).results@.len(),
                self.player_count == old(self).player_count,
                self.slots == old(self).slots,
                self.expired == old(self).expired,
                forall|i: int| 0 <= i < k ==> self.results@[i]@ == text@,
            decreases self.results@.len() - k,
        {
            self.results.set(k, text.clone());
            k += 1;
        }
        assert(self@.results =~= old(self)@.publish(text@).results);
    }

    /// The result text cached for the player `id`: empty until a session
    /// has passed the barrier, and `None` when `id` names no cached entry.
    pub fn result_for(&self, id: u32) -> (text: Option<String>)
        ensures
            text is Some <==> id < self@.results.len(),
            text matches Some(t) ==> t@ == self@.results[id as int],
    {
        if (id as usize) < self.results.len() {
            Some(self.results[id as usize].clone())
        } else {
            None
        }
    }

    /// Gives the match up: from now on every report is refused.
    pub fn expire(&mut self)
        ensures
            final(self)@ == old(self)@.expire(),
    {
        self.expired = true;
        assert(self@.results =~= old(self)@.results);
    }

    /// Starts a new round for the same number of players: every slot is
    /// emptied, every cached result cleared, and the match is no longer
    /// given up. A corrupted state is repaired by this.
    pub fn reset(&mut self)
        ensures
            final(self)@ == MatchView::fresh(old(self)@.player_count),
            final(self)@.wf(),
    {
        *self = MatchState::new(self.player_count);
    }
}

} // verus!
