//! The outcome of a match: a pure function of the completed score vector,
//! and the text by which it is reported to every player.

use vstd::prelude::*;

verus! {

/// How a completed match ended.
#[derive(Clone, Copy, Debug, PartialEq, Eq, Structural)]
pub enum Outcome {
    /// The player of this slot (counted from zero) holds a score strictly
    /// above every other player's.
    Winner(usize),
    /// No single player holds the highest score.
    Tie,
}

/// Whether slot `i` holds a score strictly above that of every other slot.
pub open spec fn strictly_highest(scores: Seq<i32>, i: int) -> bool {
    &&& 0 <= i < scores.len()
    &&& forall|j: int| 0 <= j < scores.len() && j != i ==> scores[j] < scores[i]
}

/// The outcome that a completed score vector determines.
pub open spec fn outcome_of(scores: Seq<i32>) -> Outcome {
    if exists|i: int| strictly_highest(scores, i) {
        Outcome::Winner((choose|i: int| strictly_highest(scores, i)) as usize)
    } else {
        Outcome::Tie
    }
}

/// The ten decimal digits in order.
pub open spec fn digits() -> Seq<char> {
    "0123456789"@
}

/// The one-character text of a digit below ten.
pub open spec fn digit(d: nat) -> Seq<char>
    recommends
        d < 10,
{
    digits().subrange(d as int, d as int + 1)
}

/// A natural number written in decimal, without leading zeros.
pub open spec fn decimal(n: nat) -> Seq<char>
    decreases n,
{
    if n < 10 {
        digit(n)
    } else {
        decimal(n / 10) + digit(n % 10)
    }
}

/// The text that reports an outcome. Players are named by their slot
/// counted from one.
pub open spec fn text_of(outcome: Outcome) -> Seq<char> {
    match outcome {
        Outcome::Winner(slot) => "Player "@ + decimal((slot + 1) as nat) + " wins!"@,
        Outcome::Tie => "It's a tie!"@,
    }
}

/// At most one slot holds the strictly highest score, so the outcome is a
/// winner exactly for that slot and a tie exactly when there is none.
pub proof fn lemma_outcome_characterised(scores: Seq<i32>, slot: usize)
    requires
        scores.len() <= usize::MAX,
    ensures
        strictly_highest(scores, slot as int) <==> outcome_of(scores) == Outcome::Winner(slot),
        outcome_of(scores) == Outcome::Tie <==> forall|j: int| !strictly_highest(scores, j),
{
    if exists|k: int| strictly_highest(scores, k) {
        let k = choose|k: int| strictly_highest(scores, k);
        if strictly_highest(scores, slot as int) && slot != k {
            assert(scores[slot as int] < scores[k]);
            assert(scores[k] < scores[slot as int]);
        }
    }
}

/// Between two players the outcome is the three-way comparison of their
/// scores.
pub proof fn lemma_outcome_of_two(first: i32, second: i32)
    ensures
        first > second ==> outcome_of(seq![first, second]) == Outcome::Winner(0),
        first < second ==> outcome_of(seq![first, second]) == Outcome::Winner(1),
        first == second ==> outcome_of(seq![first, second]) == Outcome::Tie,
{
    let scores = seq![first, second];
    if first > second {
        assert(strictly_highest(scores, 0));
        lemma_outcome_characterised(scores, 0);
    } else if first < second {
        assert(strictly_highest(scores, 1));
        lemma_outcome_characterised(scores, 1);
    } else {
        assert forall|j: int| !strictly_highest(scores, j) by {
            if j == 0 {
                assert(!(scores[1] < scores[0]));
            } else if j == 1 {
                assert(!(scores[0] < scores[1]));
            }
        }
    }
}

/// Determines the outcome of a completed score vector: the one player
/// whose score is strictly above all others wins, and when no such player
/// exists the match is tied.
pub fn evaluate(scores: &[i32]) -> (outcome: Outcome)
    ensures
        outcome == outcome_of(scores@),
{
    if scores.len() == 0 {
        return Outcome::Tie;
    }
    let mut best: usize = 0;
    let mut alone: bool = true;
    let mut k: usize = 1;
    while k < scores.len()
        invariant
            1 <= k <= scores@.len(),
            best < k,
            forall|j: int| 0 <= j < k ==> scores@[j] <= scores@[best as int],
            alone <==> forall|j: int| 0 <= j < k && j != best ==> scores@[j] < scores@[best as int],
        decreases scores@.len() - k,
    {
        if scores[k] > scores[best] {
            best = k;
            alone = true;
        } else if scores[k] == scores[best] {
            alone = false;
        }
        k += 1;
    }
    proof {
        lemma_outcome_characterised(scores@, best);
        if !alone {
            let twin = choose|j: int|
                0 <= j < scores@.len() && j != best && !(scores@[j] < scores@[best as int]);
            assert forall|j: int| !strictly_highest(scores@, j) by {
                if strictly_highest(scores@, j) {
                    if j == best {
                        assert(scores@[twin] < scores@[j]);
                    } else {
                        assert(scores@[best as int] < scores@[j]);
                    }
                }
            }
        }
    }
    if alone {
        Outcome::Winner(best)
    } else {
        Outcome::Tie
    }
}

/// Appends `n` in decimal to `text`.
fn push_decimal(text: &mut String, n: u128)
    ensures
        final(text)@ == old(text)@ + decimal(n as nat),
    decreases n,
{
    if n >= 10 {
        push_decimal(text, n / 10);
    }
    let d: usize = (n % 10) as usize;
    proof {
        reveal_strlit("0123456789");
    }
    text.append("0123456789".substring_ascii(d, d + 1));
    assert(text@ =~= old(text)@ + decimal(n as nat));
}

impl Outcome {
    /// The message that reports this outcome to a player.
    pub fn message(&self) -> (text: String)
        ensures
            text@ == text_of(*self),
    {
        match self {
            Outcome::Winner(slot) => {
                let mut text = String::from_str("Player ");
                push_decimal(&mut text, *slot as u128 + 1);
                text.append(" wins!");
                text
            },
            Outcome::Tie => String::from_str("It's a tie!"),
        }
    }
}

} // verus!
