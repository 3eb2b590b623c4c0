//! The fixed-size headers that a player sends: four bytes in big-endian
//! order, first the player identifier (unsigned), later the final score
//! (signed, two's complement).

use crate::error::SessionError;
use vstd::arithmetic::div_mod::lemma_fundamental_div_mod_converse;
use vstd::prelude::*;

verus! {

/// Length in bytes of each header on the wire.
pub const HEADER_LEN: usize = 4;

/// The unsigned number that four bytes spell, most significant byte first.
pub open spec fn be_value(bytes: Seq<u8>) -> int
    recommends
        bytes.len() == 4,
{
    bytes[0] as int * 0x100_0000 + bytes[1] as int * 0x1_0000 + bytes[2] as int * 0x100
        + bytes[3] as int
}

/// The four bytes that spell an unsigned 32-bit number, most significant
/// byte first.
pub open spec fn be_bytes(value: int) -> Seq<u8>
    recommends
        0 <= value < 0x1_0000_0000,
{
    seq![
        (value / 0x100_0000) as u8,
        (value / 0x1_0000 % 0x100) as u8,
        (value / 0x100 % 0x100) as u8,
        (value % 0x100) as u8,
    ]
}

/// The signed number that an unsigned 32-bit pattern stands for in two's
/// complement.
pub open spec fn signed_of(pattern: int) -> int
    recommends
        0 <= pattern < 0x1_0000_0000,
{
    if pattern >= 0x8000_0000 {
        pattern - 0x1_0000_0000
    } else {
        pattern
    }
}

/// The unsigned 32-bit pattern that stands for a signed number in two's
/// complement.
pub open spec fn pattern_of(value: int) -> int
    recommends
        -0x8000_0000 <= value < 0x8000_0000,
{
    if value < 0 {
        value + 0x1_0000_0000
    } else {
        value
    }
}

/// What a header holds when read as a player identifier.
pub open spec fn player_id_of(bytes: Seq<u8>) -> int {
    be_value(bytes)
}

/// What a header holds when read as a score.
pub open spec fn score_of(bytes: Seq<u8>) -> int {
    signed_of(be_value(bytes))
}

/// Four bytes always spell a number that fits in 32 bits.
pub proof fn lemma_be_value_range(bytes: Seq<u8>)
    requires
        bytes.len() == 4,
    ensures
        0 <= be_value(bytes) < 0x1_0000_0000,
        -0x8000_0000 <= score_of(bytes) < 0x8000_0000,
{
}

/// Spelling a number and reading the bytes back gives the number.
pub proof fn lemma_value_round_trip(value: int)
    requires
        0 <= value < 0x1_0000_0000,
    ensures
        be_bytes(value).len() == 4,
        be_value(be_bytes(value)) == value,
{
}

/// Reading four bytes and spelling the number again gives the same bytes:
/// no two headers carry the same number.
pub proof fn lemma_bytes_round_trip(bytes: Seq<u8>)
    requires
        bytes.len() == 4,
    ensures
        be_bytes(be_value(bytes)) == bytes,
{
    let b0 = bytes[0] as int;
    let b1 = bytes[1] as int;
    let b2 = bytes[2] as int;
    let b3 = bytes[3] as int;
    let value = be_value(bytes);
    lemma_fundamental_div_mod_converse(value, 0x100_0000, b0, b1 * 0x1_0000 + b2 * 0x100 + b3);
    lemma_fundamental_div_mod_converse(value, 0x1_0000, b0 * 0x100 + b1, b2 * 0x100 + b3);
    lemma_fundamental_div_mod_converse(value / 0x1_0000, 0x100, b0, b1);
    lemma_fundamental_div_mod_converse(value, 0x100, b0 * 0x1_0000 + b1 * 0x100 + b2, b3);
    lemma_fundamental_div_mod_converse(value / 0x100, 0x100, b0 * 0x100 + b1, b2);
    assert(be_bytes(value) =~= bytes);
}

/// The signed and the unsigned reading of a pattern determine each other.
pub proof fn lemma_signed_round_trip(value: int, pattern: int)
    requires
        -0x8000_0000 <= value < 0x8000_0000,
        0 <= pattern < 0x1_0000_0000,
    ensures
        0 <= pattern_of(value) < 0x1_0000_0000,
        signed_of(pattern_of(value)) == value,
        -0x8000_0000 <= signed_of(pattern) < 0x8000_0000,
        pattern_of(signed_of(pattern)) == pattern,
{
}

/// Reads a header as an unsigned number, or reports that it is not a
/// whole header.
fn decode_header(bytes: &[u8]) -> (r: Result<u32, SessionError>)
    ensures
        match r {
            Ok(pattern) => bytes@.len() == HEADER_LEN && pattern == be_value(bytes@),
            Err(e) => bytes@.len() != HEADER_LEN && e == SessionError::Protocol,
        },
{
    if bytes.len() != HEADER_LEN {
        return Err(SessionError::Protocol);
    }
    let b0: u32 = bytes[0] as u32;
    let b1: u32 = bytes[1] as u32;
    let b2: u32 = bytes[2] as u32;
    let b3: u32 = bytes[3] as u32;
    Ok(b0 * 0x100_0000 + b1 * 0x1_0000 + b2 * 0x100 + b3)
}

/// Spells an unsigned number as a header.
fn encode_header(pattern: u32) -> (bytes: [u8; 4])
    ensures
        bytes@ == be_bytes(pattern as int),
{
    let bytes: [u8; 4] = [
        (pattern / 0x100_0000) as u8,
        (pattern / 0x1_0000 % 0x100) as u8,
        (pattern / 0x100 % 0x100) as u8,
        (pattern % 0x100) as u8,
    ];
    assert(bytes@ =~= be_bytes(pattern as int));
    bytes
}

/// Decodes the player identifier from the first header of a session.
///
/// Succeeds exactly on four bytes; anything shorter or longer is a
/// protocol error.
pub fn decode_player_id(bytes: &[u8]) -> (r: Result<u32, SessionError>)
    ensures
        match r {
            Ok(id) => bytes@.len() == HEADER_LEN && id == player_id_of(bytes@),
            Err(e) => bytes@.len() != HEADER_LEN && e == SessionError::Protocol,
        },
{
    decode_header(bytes)
}

/// Decodes the final score from the second header of a session.
///
/// Succeeds exactly on four bytes; anything shorter or longer is a
/// protocol error.
pub fn decode_score(bytes: &[u8]) -> (r: Result<i32, SessionError>)
    ensures
        match r {
            Ok(score) => bytes@.len() == HEADER_LEN && score == score_of(bytes@),
            Err(e) => bytes@.len() != HEADER_LEN && e == SessionError::Protocol,
        },
{
    match decode_header(bytes) {
        Ok(pattern) => {
            if pattern >= 0x8000_0000 {
                Ok((pattern as i64 - 0x1_0000_0000) as i32)
            } else {
                Ok(pattern as i32)
            }
        },
        Err(e) => Err(e),
    }
}

/// The header by which a player announces its identifier.
pub fn encode_player_id(id: u32) -> (bytes: [u8; 4])
    ensures
        bytes@ == be_bytes(id as int),
        player_id_of(bytes@) == id,
{
    proof {
        lemma_value_round_trip(id as int);
    }
    encode_header(id)
}

/// The header by which a player reports its final score.
pub fn encode_score(score: i32) -> (bytes: [u8; 4])
    ensures
        bytes@ == be_bytes(pattern_of(score as int)),
        score_of(bytes@) == score,
{
    let pattern: u32 = if score < 0 {
        (score as i64 + 0x1_0000_0000) as u32
    } else {
        score as u32
    };
    proof {
        lemma_value_round_trip(pattern as int);
    }
    encode_header(pattern)
}

} // verus!
