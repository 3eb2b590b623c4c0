//! The player's end of the result delivery: the bytes that arrive before
//! the server closes the connection become the text that the player is
//! shown.

use crate::outcome::{decimal, digit, text_of, Outcome};
use vstd::prelude::*;
use vstd::utf8::{
    decode_utf8, encode_utf8, encode_utf8_decode_utf8, encode_utf8_valid_utf8, is_ascii_chars,
    is_ascii_chars_encode_utf8, valid_utf8,
};

verus! {

/// The size of the buffer in which a player receives the reply. The reply
/// carries no length, so a player reads until the server closes the
/// connection or this many bytes have arrived.
pub const REPLY_CAPACITY: usize = 128;

/// The text that `String::from_utf8_lossy` makes of bytes that are not
/// valid UTF-8: every ill-formed part gives way to a replacement
/// character.
pub uninterp spec fn lossy_text(bytes: Seq<u8>) -> Seq<char>;

/// The text that a player reads out of the bytes of a reply: the text
/// that the bytes encode where they are valid UTF-8, and else what
/// remains after the ill-formed parts are replaced.
pub open spec fn shown_text(bytes: Seq<u8>) -> Seq<char> {
    if valid_utf8(bytes) {
        decode_utf8(bytes)
    } else {
        lossy_text(bytes)
    }
}

/// What a player makes of the bytes received up to the close of the
/// connection: no bytes, no result.
pub open spec fn reply_of(bytes: Seq<u8>) -> Option<Seq<char>> {
    if bytes.len() == 0 {
        None
    } else {
        Some(shown_text(bytes))
    }
}

/// The caption that ends the game, with the result where one arrived.
pub open spec fn caption_of(result: Option<Seq<char>>) -> Seq<char> {
    match result {
        Some(text) => "Game Over: "@ + text + "\n"@,
        None => "Game Over\n"@,
    }
}

/// Calls `String::from_utf8_lossy` and owns the result. Trusted: the
/// text is the decoding of the bytes where they are valid UTF-8; on other
/// bytes it is only given a name.
#[verifier::external_body]
fn text_from_bytes(bytes: &[u8]) -> (text: String)
    ensures
        text@ == (if valid_utf8(bytes@) {
            decode_utf8(bytes@)
        } else {
            lossy_text(bytes@)
        }),
{
    String::from_utf8_lossy(bytes).into_owned()
}

/// Turns what was received before the connection closed into the result
/// to show. An empty reply means that the server closed without a result.
pub fn read_reply(bytes: &[u8]) -> (reply: Option<String>)
    ensures
        match reply {
            Some(text) => reply_of(bytes@) == Some(text@),
            None => reply_of(bytes@) is None,
        },
{
    if bytes.len() == 0 {
        None
    } else {
        Some(text_from_bytes(bytes))
    }
}

/// The caption to show once the game is over.
pub fn caption(result: &Option<String>) -> (text: String)
    ensures
        text@ == caption_of(
            match *result {
                Some(reply) => Some(reply@),
                None => None,
            },
        ),
{
    match result {
        Some(reply) => {
            let mut text = String::from_str("Game Over: ");
            text.append(reply.as_str());
            text.append("\n");
            text
        },
        None => String::from_str("Game Over\n"),
    }
}

/// Ten to the power of `exponent`.
pub open spec fn ten_to(exponent: nat) -> nat
    decreases exponent,
{
    if exponent == 0 {
        1
    } else {
        10 * ten_to((exponent - 1) as nat)
    }
}

/// A number below ten to the power of `width` has at most `width` digits,
/// and each of them is an ASCII character.
pub proof fn lemma_decimal_is_short(n: nat, width: nat)
    requires
        width >= 1,
        n < ten_to(width),
    ensures
        1 <= decimal(n).len() <= width,
        is_ascii_chars(decimal(n)),
    decreases width,
{
    reveal_strlit("0123456789");
    if n < 10 {
        assert(decimal(n) =~= digit(n));
        assert(is_ascii_chars(digit(n)));
    } else {
        reveal_with_fuel(ten_to, 2);
        let rest = (width - 1) as nat;
        assert(n / 10 < ten_to(rest));
        lemma_decimal_is_short(n / 10, rest);
        assert(is_ascii_chars(digit(n % 10)));
        assert(is_ascii_chars(decimal(n / 10) + digit(n % 10)));
    }
}

/// Every result message is plain ASCII of at most 33 characters.
pub proof fn lemma_message_is_short_ascii(outcome: Outcome)
    ensures
        0 < text_of(outcome).len() <= 33,
        is_ascii_chars(text_of(outcome)),
{
    reveal_strlit("Player ");
    reveal_strlit(" wins!");
    reveal_strlit("It's a tie!");
    match outcome {
        Outcome::Winner(slot) => {
            let n = (slot + 1) as nat;
            assert(ten_to(20) == 100_000_000_000_000_000_000nat) by {
                reveal_with_fuel(ten_to, 21);
            }
            lemma_decimal_is_short(n, 20);
            assert(is_ascii_chars("Player "@));
            assert(is_ascii_chars(" wins!"@));
            assert(is_ascii_chars("Player "@ + decimal(n) + " wins!"@));
        },
        Outcome::Tie => {},
    }
}

/// A player is shown exactly the text that the server computed: the bytes
/// of every result message fit the reply buffer, and reading them back
/// gives the message.
pub proof fn theorem_reply_shows_the_message(outcome: Outcome)
    ensures
        0 < encode_utf8(text_of(outcome)).len() <= REPLY_CAPACITY,
        reply_of(encode_utf8(text_of(outcome))) == Some(text_of(outcome)),
{
    let text = text_of(outcome);
    lemma_message_is_short_ascii(outcome);
    is_ascii_chars_encode_utf8(text);
    encode_utf8_valid_utf8(text);
    encode_utf8_decode_utf8(text);
}

} // verus!
