//! The Crockford base32 symbol tables.
//!
//! The alphabet is `0123456789ABCDEFGHJKMNPQRSTVWXYZ`: 32 case-sensitive
//! upper-case characters, excluding `I`, `L`, `O` and `U`. Decoding accepts
//! exactly these 32 characters; lower-case input is rejected.

use vstd::prelude::*;

verus! {

/// The sentinel a decode yields for a byte outside the alphabet.
pub const INVALID: u8 = 0xFF;

/// The character that stands for a five-bit value (0 for values 32 and up,
/// which never occur).
pub open spec fn encode_char(x: u8) -> u8 {
    match x {
        0 => 48,  // '0'
        1 => 49,  // '1'
        2 => 50,  // '2'
        3 => 51,  // '3'
        4 => 52,  // '4'
        5 => 53,  // '5'
        6 => 54,  // '6'
        7 => 55,  // '7'
        8 => 56,  // '8'
        9 => 57,  // '9'
        10 => 65,  // 'A'
        11 => 66,  // 'B'
        12 => 67,  // 'C'
        13 => 68,  // 'D'
        14 => 69,  // 'E'
        15 => 70,  // 'F'
        16 => 71,  // 'G'
        17 => 72,  // 'H'
        18 => 74,  // 'J'
        19 => 75,  // 'K'
        20 => 77,  // 'M'
        21 => 78,  // 'N'
        22 => 80,  // 'P'
        23 => 81,  // 'Q'
        24 => 82,  // 'R'
        25 => 83,  // 'S'
        26 => 84,  // 'T'
        27 => 86,  // 'V'
        28 => 87,  // 'W'
        29 => 88,  // 'X'
        30 => 89,  // 'Y'
        31 => 90,  // 'Z'
        _ => 0,
    }
}

/// The five-bit value a character stands for, or [`INVALID`] for the 224
/// bytes outside the alphabet.
pub open spec fn decode_char(c: u8) -> u8 {
    match c {
        48 => 0,
        49 => 1,
        50 => 2,
        51 => 3,
        52 => 4,
        53 => 5,
        54 => 6,
        55 => 7,
        56 => 8,
        57 => 9,
        65 => 10,
        66 => 11,
        67 => 12,
        68 => 13,
        69 => 14,
        70 => 15,
        71 => 16,
        72 => 17,
        74 => 18,
        75 => 19,
        77 => 20,
        78 => 21,
        80 => 22,
        81 => 23,
        82 => 24,
        83 => 25,
        84 => 26,
        86 => 27,
        87 => 28,
        88 => 29,
        89 => 30,
        90 => 31,
        _ => INVALID,
    }
}

/// Whether a byte is one of the 32 alphabet characters.
pub open spec fn is_valid_char(c: u8) -> bool {
    decode_char(c) != INVALID
}

/// Looks a five-bit value up in the encode table.
pub fn encode_sym(x: u8) -> (c: u8)
    requires
        x < 32,
    ensures
        c == encode_char(x),
{
    match x {
        0 => 48,  // '0'
        1 => 49,  // '1'
        2 => 50,  // '2'
        3 => 51,  // '3'
        4 => 52,  // '4'
        5 => 53,  // '5'
        6 => 54,  // '6'
        7 => 55,  // '7'
        8 => 56,  // '8'
        9 => 57,  // '9'
        10 => 65,  // 'A'
        11 => 66,  // 'B'
        12 => 67,  // 'C'
        13 => 68,  // 'D'
        14 => 69,  // 'E'
        15 => 70,  // 'F'
        16 => 71,  // 'G'
        17 => 72,  // 'H'
        18 => 74,  // 'J'
        19 => 75,  // 'K'
        20 => 77,  // 'M'
        21 => 78,  // 'N'
        22 => 80,  // 'P'
        23 => 81,  // 'Q'
        24 => 82,  // 'R'
        25 => 83,  // 'S'
        26 => 84,  // 'T'
        27 => 86,  // 'V'
        28 => 87,  // 'W'
        29 => 88,  // 'X'
        30 => 89,  // 'Y'
        31 => 90,  // 'Z'
        _ => 0,
    }
}

/// Looks a byte up in the decode table.
pub fn decode_sym(c: u8) -> (x: u8)
    ensures
        x == decode_char(c),
{
    match c {
        48 => 0,
        49 => 1,
        50 => 2,
        51 => 3,
        52 => 4,
        53 => 5,
        54 => 6,
        55 => 7,
        56 => 8,
        57 => 9,
        65 => 10,
        66 => 11,
        67 => 12,
        68 => 13,
        69 => 14,
        70 => 15,
        71 => 16,
        72 => 17,
        74 => 18,
        75 => 19,
        77 => 20,
        78 => 21,
        80 => 22,
        81 => 23,
        82 => 24,
        83 => 25,
        84 => 26,
        86 => 27,
        87 => 28,
        88 => 29,
        89 => 30,
        90 => 31,
        _ => INVALID,
    }
}

/// Decoding inverts encoding: every five-bit value survives the round trip,
/// and the character it encodes to is a valid ASCII alphabet character.
pub proof fn lemma_decode_encode()
    ensures
        forall|x: u8| x < 32 ==> decode_char(#[trigger] encode_char(x)) == x,
        forall|x: u8| x < 32 ==> #[trigger] encode_char(x) < 128,
{
}

/// Encoding inverts decoding on the 32 valid characters, whose decoded
/// values all lie below 32.
pub proof fn lemma_encode_decode()
    ensures
        forall|c: u8| is_valid_char(c) ==> encode_char(#[trigger] decode_char(c)) == c,
        forall|c: u8| is_valid_char(c) ==> #[trigger] decode_char(c) < 32,
{
}

/// The encode table is strictly increasing, so the order of five-bit values
/// carries over to the byte order of their characters.
pub proof fn lemma_encode_monotone()
    ensures
        forall|x: u8, y: u8| x < y && y < 32 ==> #[trigger] encode_char(x) < #[trigger] encode_char(y),
{
}

} // verus!
