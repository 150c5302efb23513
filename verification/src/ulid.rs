//! The identifier value and its codec.
//!
//! A [`Ulid`] holds exactly 16 bytes: bytes 0 to 5 are a 48-bit big-endian
//! timestamp, bytes 6 to 15 are entropy. [`Ulid::marshal`] packs the 128
//! bits into 26 five-bit symbols (most significant first, the two spare
//! bits of the first symbol always zero) and encodes each through the
//! Crockford base32 table; [`Ulid::unmarshal`] is the inverse. Decoding is
//! permissive about the two spare bits: a first symbol of 8 or more is
//! masked, not rejected.

use vstd::prelude::*;
use vstd::string::StringSliceAdditionalSpecFns;

use crate::base32;
use crate::low48;

verus! {

/// The five-bit symbol at position `i` (0 to 25) of the text form of the
/// 16 bytes `v`: the 128 bits of `v`, read most significant first, cut
/// into 26 chunks of 5 bits, the first chunk padded with two zero bits.
/// Symbols 0 to 9 cover the 6 timestamp bytes, symbols 10 to 25 the 10
/// entropy bytes.
pub open spec fn sym_at(v: Seq<u8>, i: int) -> u8 {
    if i == 0 {
        (v[0] & 224) >> 5
    } else if i == 1 {
        v[0] & 31
    } else if i == 2 {
        (v[1] & 248) >> 3
    } else if i == 3 {
        ((v[1] & 7) << 2) | ((v[2] & 192) >> 6)
    } else if i == 4 {
        (v[2] & 62) >> 1
    } else if i == 5 {
        ((v[2] & 1) << 4) | ((v[3] & 240) >> 4)
    } else if i == 6 {
        ((v[3] & 15) << 1) | ((v[4] & 128) >> 7)
    } else if i == 7 {
        (v[4] & 124) >> 2
    } else if i == 8 {
        ((v[4] & 3) << 3) | ((v[5] & 224) >> 5)
    } else if i == 9 {
        v[5] & 31
    } else if i == 10 {
        (v[6] & 248) >> 3
    } else if i == 11 {
        ((v[6] & 7) << 2) | ((v[7] & 192) >> 6)
    } else if i == 12 {
        (v[7] & 62) >> 1
    } else if i == 13 {
        ((v[7] & 1) << 4) | ((v[8] & 240) >> 4)
    } else if i == 14 {
        ((v[8] & 15) << 1) | ((v[9] & 128) >> 7)
    } else if i == 15 {
        (v[9] & 124) >> 2
    } else if i == 16 {
        ((v[9] & 3) << 3) | ((v[10] & 224) >> 5)
    } else if i == 17 {
        v[10] & 31
    } else if i == 18 {
        (v[11] & 248) >> 3
    } else if i == 19 {
        ((v[11] & 7) << 2) | ((v[12] & 192) >> 6)
    } else if i == 20 {
        (v[12] & 62) >> 1
    } else if i == 21 {
        ((v[12] & 1) << 4) | ((v[13] & 240) >> 4)
    } else if i == 22 {
        ((v[13] & 15) << 1) | ((v[14] & 128) >> 7)
    } else if i == 23 {
        (v[14] & 124) >> 2
    } else if i == 24 {
        ((v[14] & 3) << 3) | ((v[15] & 224) >> 5)
    } else if i == 25 {
        v[15] & 31
    } else {
        0
    }
}

/// The 26-character text form of the 16 bytes `v`.
pub open spec fn text_of(v: Seq<u8>) -> Seq<u8> {
    Seq::new(26, |i: int| base32::encode_char(sym_at(v, i)))
}

/// Byte `j` (0 to 15) reassembled from the 26 five-bit symbols `w`: the
/// exact inverse of the grouping in [`sym_at`], with the two spare top
/// bits of symbol 0 masked away.
pub open spec fn byte_at(w: Seq<u8>, j: int) -> u8 {
    if j == 0 {
        (w[0] << 5) | w[1]
    } else if j == 1 {
        (w[2] << 3) | (w[3] >> 2)
    } else if j == 2 {
        (w[3] << 6) | (w[4] << 1) | (w[5] >> 4)
    } else if j == 3 {
        (w[5] << 4) | (w[6] >> 1)
    } else if j == 4 {
        (w[6] << 7) | (w[7] << 2) | (w[8] >> 3)
    } else if j == 5 {
        (w[8] << 5) | w[9]
    } else if j == 6 {
        (w[10] << 3) | (w[11] >> 2)
    } else if j == 7 {
        (w[11] << 6) | (w[12] << 1) | (w[13] >> 4)
    } else if j == 8 {
        (w[13] << 4) | (w[14] >> 1)
    } else if j == 9 {
        (w[14] << 7) | (w[15] << 2) | (w[16] >> 3)
    } else if j == 10 {
        (w[16] << 5) | w[17]
    } else if j == 11 {
        (w[18] << 3) | (w[19] >> 2)
    } else if j == 12 {
        (w[19] << 6) | (w[20] << 1) | (w[21] >> 4)
    } else if j == 13 {
        (w[21] << 4) | (w[22] >> 1)
    } else if j == 14 {
        (w[22] << 7) | (w[23] << 2) | (w[24] >> 3)
    } else if j == 15 {
        (w[24] << 5) | w[25]
    } else {
        0
    }
}

/// The 16 bytes reassembled from 26 five-bit symbols.
pub open spec fn bytes_of(w: Seq<u8>) -> Seq<u8> {
    Seq::new(16, |j: int| byte_at(w, j))
}

/// Each character of `s` decoded to its five-bit value.
pub open spec fn decoded(s: Seq<u8>) -> Seq<u8> {
    Seq::new(s.len(), |i: int| base32::decode_char(s[i]))
}

/// Whether every byte of `s` is an alphabet character.
pub open spec fn all_valid(s: Seq<u8>) -> bool {
    forall|i: int| 0 <= i < s.len() ==> base32::is_valid_char(#[trigger] s[i])
}

/// Byte `i` (0 to 5) of the 48-bit timestamp `t` in big-endian order.
pub open spec fn ts_byte(t: u64, i: int) -> u8 {
    (t >> (40 - 8 * i)) as u8
}

/// The 48-bit timestamp stored big-endian in the first 6 bytes of `v`.
pub open spec fn ts_of(v: Seq<u8>) -> u64 {
    ((v[0] as u64) << 40) | ((v[1] as u64) << 32) | ((v[2] as u64) << 24)
        | ((v[3] as u64) << 16) | ((v[4] as u64) << 8) | (v[5] as u64)
}

/// Strict byte-wise lexicographic order on two sequences of equal length:
/// at the first position where they differ, the left one is smaller.
pub open spec fn lex_lt(x: Seq<u8>, y: Seq<u8>) -> bool {
    exists|i: int|
        #![trigger x[i], y[i]]
        0 <= i < x.len() && i < y.len() && x[i] < y[i] && (forall|j: int|
            0 <= j < i ==> x[j] == y[j])
}

/// A first differing position where the left byte is smaller witnesses
/// [`lex_lt`].
pub proof fn lemma_lex_lt_intro(x: Seq<u8>, y: Seq<u8>, i: int)
    requires
        0 <= i < x.len(),
        i < y.len(),
        x[i] < y[i],
        forall|j: int| 0 <= j < i ==> x[j] == y[j],
    ensures
        lex_lt(x, y),
{
}

/// Every identifier views as exactly 16 bytes.
pub broadcast proof fn lemma_ulid_len(u: Ulid)
    ensures
        (#[trigger] u@).len() == 16,
{
}

/// Every symbol of a text form is a five-bit value, whatever the bytes.
pub proof fn lemma_syms_bound(v: Seq<u8>)
    ensures
        forall|i: int| 0 <= i < 26 ==> #[trigger] sym_at(v, i) < 32,
{
    let v0 = v[0];
    let v1 = v[1];
    let v2 = v[2];
    let v3 = v[3];
    let v4 = v[4];
    let v5 = v[5];
    let v6 = v[6];
    let v7 = v[7];
    let v8 = v[8];
    let v9 = v[9];
    let v10 = v[10];
    let v11 = v[11];
    let v12 = v[12];
    let v13 = v[13];
    let v14 = v[14];
    let v15 = v[15];
    assert(((v0 & 224) >> 5) < 32 && (v0 & 31) < 32
        && ((v1 & 248) >> 3) < 32 && (((v1 & 7) << 2) | ((v2 & 192) >> 6)) < 32
        && ((v2 & 62) >> 1) < 32 && (((v2 & 1) << 4) | ((v3 & 240) >> 4)) < 32
        && (((v3 & 15) << 1) | ((v4 & 128) >> 7)) < 32 && ((v4 & 124) >> 2) < 32
        && (((v4 & 3) << 3) | ((v5 & 224) >> 5)) < 32 && (v5 & 31) < 32
        && ((v6 & 248) >> 3) < 32 && (((v6 & 7) << 2) | ((v7 & 192) >> 6)) < 32
        && ((v7 & 62) >> 1) < 32 && (((v7 & 1) << 4) | ((v8 & 240) >> 4)) < 32
        && (((v8 & 15) << 1) | ((v9 & 128) >> 7)) < 32 && ((v9 & 124) >> 2) < 32
        && (((v9 & 3) << 3) | ((v10 & 224) >> 5)) < 32 && (v10 & 31) < 32
        && ((v11 & 248) >> 3) < 32 && (((v11 & 7) << 2) | ((v12 & 192) >> 6)) < 32
        && ((v12 & 62) >> 1) < 32 && (((v12 & 1) << 4) | ((v13 & 240) >> 4)) < 32
        && (((v13 & 15) << 1) | ((v14 & 128) >> 7)) < 32 && ((v14 & 124) >> 2) < 32
        && (((v14 & 3) << 3) | ((v15 & 224) >> 5)) < 32 && (v15 & 31) < 32) by (bit_vector);
}

/// Relies on `String::from_utf8`: bytes below 128 are ASCII, hence valid
/// UTF-8, and the resulting string holds exactly those characters.
#[verifier::external_body]
fn ascii_to_string(bytes: &[u8]) -> (s: String)
    requires
        forall|i: int| 0 <= i < bytes@.len() ==> bytes@[i] < 128,
    ensures
        s@.len() == bytes@.len(),
        forall|i: int| 0 <= i < bytes@.len() ==> #[trigger] s@[i] == bytes@[i] as char,
{
    String::from_utf8(bytes.to_vec()).unwrap()
}

/// A 128-bit identifier: a 48-bit big-endian timestamp followed by 80 bits
/// of entropy, compared byte by byte from byte 0.
#[derive(Clone, Copy, Debug, PartialEq, PartialOrd)]
pub struct Ulid([u8; 16]);

/// Errors of text decoding, the only operation that can fail.
#[derive(Clone, Copy, Debug, PartialEq, Eq, Structural)]
pub enum UlidError {
    /// The input is not exactly 26 bytes long.
    InvalidLength,
    /// The input holds a byte outside the 32-character alphabet.
    InvalidCharacter,
}

impl View for Ulid {
    type V = Seq<u8>;

    closed spec fn view(&self) -> Seq<u8> {
        self.0@
    }
}

impl Ulid {
    /// Creates a new identifier from a timestamp and an entropy source.
    /// The low 48 bits of the timestamp fill bytes 0 to 5 big-endian;
    /// the source is called once for each of bytes 6 to 15, in order.
    pub fn new<F: Fn() -> u8>(timestamp: u64, rng: F) -> (r: Ulid)
        requires
            call_requires(rng, ()),
        ensures
            r@.len() == 16,
            forall|i: int| 0 <= i < 6 ==> r@[i] == ts_byte(timestamp, i),
            forall|i: int| 6 <= i < 16 ==> call_ensures(rng, (), #[trigger] r@[i]),
            ts_of(r@) == low48(timestamp),
    {
        let mut ans = Ulid([0u8; 16]);
        ans.encode_time(timestamp);
        ans.encode_entropy(rng);
        ans
    }

    /// Writes the low 48 bits of the timestamp into bytes 0 to 5 in
    /// big-endian order, leaving the entropy bytes alone.
    pub fn encode_time(&mut self, timestamp: u64)
        requires
            old(self)@.len() == 16,
        ensures
            final(self)@.len() == 16,
            forall|i: int| 0 <= i < 6 ==> final(self)@[i] == ts_byte(timestamp, i),
            forall|i: int| 6 <= i < 16 ==> final(self)@[i] == old(self)@[i],
            ts_of(final(self)@) == low48(timestamp),
    {
        self.0[0] = (timestamp >> 40) as u8;
        self.0[1] = (timestamp >> 32) as u8;
        self.0[2] = (timestamp >> 24) as u8;
        self.0[3] = (timestamp >> 16) as u8;
        self.0[4] = (timestamp >> 8) as u8;
        self.0[5] = timestamp as u8;
        proof {
            let t = timestamp;
            assert(((((t >> 40) as u8) as u64) << 40) | ((((t >> 32) as u8) as u64) << 32)
                | ((((t >> 24) as u8) as u64) << 24) | ((((t >> 16) as u8) as u64) << 16)
                | ((((t >> 8) as u8) as u64) << 8) | ((t as u8) as u64)
                == (t & 0xFFFF_FFFF_FFFF)) by (bit_vector);
            assert(t >> 0 == t) by (bit_vector);
        }
    }

    /// Fills bytes 6 to 15 with one call of the entropy source each, in
    /// order, leaving the timestamp bytes alone.
    pub fn encode_entropy<F: Fn() -> u8>(&mut self, rng: F)
        requires
            old(self)@.len() == 16,
            call_requires(rng, ()),
        ensures
            final(self)@.len() == 16,
            forall|i: int| 0 <= i < 6 ==> final(self)@[i] == old(self)@[i],
            forall|i: int| 6 <= i < 16 ==> call_ensures(rng, (), #[trigger] final(self)@[i]),
    {
        self.0[6] = rng();
        self.0[7] = rng();
        self.0[8] = rng();
        self.0[9] = rng();
        self.0[10] = rng();
        self.0[11] = rng();
        self.0[12] = rng();
        self.0[13] = rng();
        self.0[14] = rng();
        self.0[15] = rng();
    }

    /// Renders the identifier as its 26-character Crockford base32 text
    /// form: 10 characters for the timestamp, 16 for the entropy.
    pub fn marshal(&self) -> (r: [u8; 26])
        ensures
            r@ == text_of(self@),
    {
        let v0 = self.0[0];
        let v1 = self.0[1];
        let v2 = self.0[2];
        let v3 = self.0[3];
        let v4 = self.0[4];
        let v5 = self.0[5];
        let v6 = self.0[6];
        let v7 = self.0[7];
        let v8 = self.0[8];
        let v9 = self.0[9];
        let v10 = self.0[10];
        let v11 = self.0[11];
        let v12 = self.0[12];
        let v13 = self.0[13];
        let v14 = self.0[14];
        let v15 = self.0[15];
        proof {
            assert(((v0 & 224) >> 5) < 32 && (v0 & 31) < 32
                && ((v1 & 248) >> 3) < 32 && (((v1 & 7) << 2) | ((v2 & 192) >> 6)) < 32
                && ((v2 & 62) >> 1) < 32 && (((v2 & 1) << 4) | ((v3 & 240) >> 4)) < 32
                && (((v3 & 15) << 1) | ((v4 & 128) >> 7)) < 32 && ((v4 & 124) >> 2) < 32
                && (((v4 & 3) << 3) | ((v5 & 224) >> 5)) < 32 && (v5 & 31) < 32
                && ((v6 & 248) >> 3) < 32 && (((v6 & 7) << 2) | ((v7 & 192) >> 6)) < 32
                && ((v7 & 62) >> 1) < 32 && (((v7 & 1) << 4) | ((v8 & 240) >> 4)) < 32
                && (((v8 & 15) << 1) | ((v9 & 128) >> 7)) < 32 && ((v9 & 124) >> 2) < 32
                && (((v9 & 3) << 3) | ((v10 & 224) >> 5)) < 32 && (v10 & 31) < 32
                && ((v11 & 248) >> 3) < 32 && (((v11 & 7) << 2) | ((v12 & 192) >> 6)) < 32
                && ((v12 & 62) >> 1) < 32 && (((v12 & 1) << 4) | ((v13 & 240) >> 4)) < 32
                && (((v13 & 15) << 1) | ((v14 & 128) >> 7)) < 32 && ((v14 & 124) >> 2) < 32
                && (((v14 & 3) << 3) | ((v15 & 224) >> 5)) < 32 && (v15 & 31) < 32) by (bit_vector);
        }
        let mut ans = [0u8; 26];
        ans[0] = base32::encode_sym((v0 & 224) >> 5);
        ans[1] = base32::encode_sym(v0 & 31);
        ans[2] = base32::encode_sym((v1 & 248) >> 3);
        ans[3] = base32::encode_sym(((v1 & 7) << 2) | ((v2 & 192) >> 6));
        ans[4] = base32::encode_sym((v2 & 62) >> 1);
        ans[5] = base32::encode_sym(((v2 & 1) << 4) | ((v3 & 240) >> 4));
        ans[6] = base32::encode_sym(((v3 & 15) << 1) | ((v4 & 128) >> 7));
        ans[7] = base32::encode_sym((v4 & 124) >> 2);
        ans[8] = base32::encode_sym(((v4 & 3) << 3) | ((v5 & 224) >> 5));
        ans[9] = base32::encode_sym(v5 & 31);
        ans[10] = base32::encode_sym((v6 & 248) >> 3);
        ans[11] = base32::encode_sym(((v6 & 7) << 2) | ((v7 & 192) >> 6));
        ans[12] = base32::encode_sym((v7 & 62) >> 1);
        ans[13] = base32::encode_sym(((v7 & 1) << 4) | ((v8 & 240) >> 4));
        ans[14] = base32::encode_sym(((v8 & 15) << 1) | ((v9 & 128) >> 7));
        ans[15] = base32::encode_sym((v9 & 124) >> 2);
        ans[16] = base32::encode_sym(((v9 & 3) << 3) | ((v10 & 224) >> 5));
        ans[17] = base32::encode_sym(v10 & 31);
        ans[18] = base32::encode_sym((v11 & 248) >> 3);
        ans[19] = base32::encode_sym(((v11 & 7) << 2) | ((v12 & 192) >> 6));
        ans[20] = base32::encode_sym((v12 & 62) >> 1);
        ans[21] = base32::encode_sym(((v12 & 1) << 4) | ((v13 & 240) >> 4));
        ans[22] = base32::encode_sym(((v13 & 15) << 1) | ((v14 & 128) >> 7));
        ans[23] = base32::encode_sym((v14 & 124) >> 2);
        ans[24] = base32::encode_sym(((v14 & 3) << 3) | ((v15 & 224) >> 5));
        ans[25] = base32::encode_sym(v15 & 31);
        proof {
            assert(ans@ =~= text_of(self@));
        }
        ans
    }

    /// Decodes one text byte to its five-bit value, or reports it invalid.
    fn unmarshal_word(x: u8) -> (r: Result<u8, UlidError>)
        ensures
            base32::is_valid_char(x) ==> r == Ok::<u8, UlidError>(base32::decode_char(x)),
            !base32::is_valid_char(x) ==> r == Err::<u8, UlidError>(UlidError::InvalidCharacter),
    {
        let d = base32::decode_sym(x);
        if d == base32::INVALID {
            Err(UlidError::InvalidCharacter)
        } else {
            Ok(d)
        }
    }

    /// Parses a 26-byte text form back into an identifier. Fails with
    /// `InvalidLength` unless the input is exactly 26 bytes, and with
    /// `InvalidCharacter` if any byte is outside the alphabet; the two
    /// spare top bits of the first symbol are masked away, not rejected.
    pub fn unmarshal_bytes(s: &[u8]) -> (r: Result<Ulid, UlidError>)
        ensures
            s@.len() != 26 ==> r == Err::<Ulid, UlidError>(UlidError::InvalidLength),
            s@.len() == 26 && !all_valid(s@) ==> r == Err::<Ulid, UlidError>(
                UlidError::InvalidCharacter,
            ),
            s@.len() == 26 && all_valid(s@) ==> (r matches Ok(u) && u@ == bytes_of(decoded(s@))),
    {
        if s.len() != 26 {
            return Err(UlidError::InvalidLength);
        }

        let mut w = [0u8; 26];
        let mut i: usize = 0;
        while i < 26
            invariant
                0 <= i <= 26,
                s@.len() == 26,
                forall|k: int| 0 <= k < i ==> base32::is_valid_char(#[trigger] s@[k]),
                forall|k: int| 0 <= k < i ==> w@[k] == base32::decode_char(s@[k]),
            decreases 26 - i,
        {
            match Self::unmarshal_word(s[i]) {
                Ok(x) => {
                    w[i] = x;
                },
                Err(e) => {
                    return Err(e);
                },
            }
            i += 1;
        }
        proof {
            assert(w@ =~= decoded(s@));
        }

        let mut val = [0u8; 16];
        val[0] = (w[0] << 5) | w[1];
        val[1] = (w[2] << 3) | (w[3] >> 2);
        val[2] = (w[3] << 6) | (w[4] << 1) | (w[5] >> 4);
        val[3] = (w[5] << 4) | (w[6] >> 1);
        val[4] = (w[6] << 7) | (w[7] << 2) | (w[8] >> 3);
        val[5] = (w[8] << 5) | w[9];
        val[6] = (w[10] << 3) | (w[11] >> 2);
        val[7] = (w[11] << 6) | (w[12] << 1) | (w[13] >> 4);
        val[8] = (w[13] << 4) | (w[14] >> 1);
        val[9] = (w[14] << 7) | (w[15] << 2) | (w[16] >> 3);
        val[10] = (w[16] << 5) | w[17];
        val[11] = (w[18] << 3) | (w[19] >> 2);
        val[12] = (w[19] << 6) | (w[20] << 1) | (w[21] >> 4);
        val[13] = (w[21] << 4) | (w[22] >> 1);
        val[14] = (w[22] << 7) | (w[23] << 2) | (w[24] >> 3);
        val[15] = (w[24] << 5) | w[25];

        let ans = Ulid(val);
        proof {
            assert(ans@ =~= bytes_of(decoded(s@)));
        }
        Ok(ans)
    }

    /// Parses the text form given as a string; see [`Ulid::unmarshal_bytes`].
    pub fn unmarshal(s: &str) -> (r: Result<Ulid, UlidError>)
        ensures
            s.spec_bytes().len() != 26 ==> r == Err::<Ulid, UlidError>(UlidError::InvalidLength),
            s.spec_bytes().len() == 26 && !all_valid(s.spec_bytes()) ==> r == Err::<
                Ulid,
                UlidError,
            >(UlidError::InvalidCharacter),
            s.spec_bytes().len() == 26 && all_valid(s.spec_bytes()) ==> (r matches Ok(u) && u@
                == bytes_of(decoded(s.spec_bytes()))),
    {
        Self::unmarshal_bytes(s.as_bytes())
    }

    /// Wraps any 16 bytes as an identifier; every 16-byte value is valid.
    pub fn from_bytes(bytes: [u8; 16]) -> (r: Ulid)
        ensures
            r@ == bytes@,
    {
        Ulid(bytes)
    }

    /// The 16 bytes of the identifier, byte 0 most significant.
    pub fn bytes(&self) -> (r: [u8; 16])
        ensures
            r@ == self@,
    {
        self.0
    }

    /// Wraps a byte slice as an identifier, if it holds exactly 16 bytes.
    pub fn from_slice(bytes: &[u8]) -> (r: Option<Ulid>)
        ensures
            bytes@.len() == 16 ==> (r matches Some(u) && u@ == bytes@),
            bytes@.len() != 16 ==> r is None,
    {
        if bytes.len() != 16 {
            return None;
        }
        let mut val = [0u8; 16];
        let mut i: usize = 0;
        while i < 16
            invariant
                0 <= i <= 16,
                bytes@.len() == 16,
                forall|k: int| 0 <= k < i ==> val@[k] == bytes@[k],
            decreases 16 - i,
        {
            val[i] = bytes[i];
            i += 1;
        }
        proof {
            assert(val@ =~= bytes@);
        }
        Some(Ulid(val))
    }

    /// The 16 bytes of the identifier as a growable buffer.
    pub fn to_vec(&self) -> (r: Vec<u8>)
        ensures
            r@ == self@,
    {
        vstd::slice::slice_to_vec(self.0.as_slice())
    }

    /// Whether this identifier comes strictly before another in byte-wise
    /// order: chronological order whenever the timestamps differ.
    pub fn precedes(&self, other: &Ulid) -> (r: bool)
        ensures
            r == lex_lt(self@, other@),
    {
        let mut i: usize = 0;
        while i < 16
            invariant
                0 <= i <= 16,
                forall|j: int| 0 <= j < i ==> self@[j] == other@[j],
            decreases 16 - i,
        {
            if self.0[i] < other.0[i] {
                proof {
                    lemma_lex_lt_intro(self@, other@, i as int);
                }
                return true;
            }
            if self.0[i] > other.0[i] {
                proof {
                    assert(!lex_lt(self@, other@)) by {
                        if lex_lt(self@, other@) {
                            let k = choose|k: int|
                                0 <= k < self@.len() && k < other@.len() && self@[k] < other@[k]
                                    && (forall|j: int| 0 <= j < k ==> self@[j] == other@[j]);
                            if k < i {
                                assert(self@[k] == other@[k]);
                            } else if k > i {
                                assert(self@[i as int] == other@[i as int]);
                            }
                        }
                    }
                }
                return false;
            }
            i += 1;
        }
        proof {
            assert(!lex_lt(self@, other@)) by {
                if lex_lt(self@, other@) {
                    let k = choose|k: int|
                        0 <= k < self@.len() && k < other@.len() && self@[k] < other@[k]
                            && (forall|j: int| 0 <= j < k ==> self@[j] == other@[j]);
                    assert(self@[k] == other@[k]);
                }
            }
        }
        false
    }

    /// The text form as an owned string of 26 ASCII characters.
    pub fn to_string(&self) -> (s: String)
        ensures
            s@.len() == 26,
            forall|i: int| 0 <= i < 26 ==> #[trigger] s@[i] == text_of(self@)[i] as char,
    {
        let text = self.marshal();
        proof {
            lemma_syms_bound(self@);
            base32::lemma_decode_encode();
            assert(forall|i: int| 0 <= i < 26 ==> #[trigger] text@[i] < 128);
        }
        ascii_to_string(text.as_slice())
    }

    /// Reads the 48-bit timestamp back out of bytes 0 to 5, zero-extended
    /// to 64 bits.
    pub fn timestamp(&self) -> (t: u64)
        ensures
            t == ts_of(self@),
            t < 0x1_0000_0000_0000,
    {
        let b0 = self.0[0];
        let b1 = self.0[1];
        let b2 = self.0[2];
        let b3 = self.0[3];
        let b4 = self.0[4];
        let b5 = self.0[5];
        proof {
            assert((((b0 as u64) << 40) | ((b1 as u64) << 32) | ((b2 as u64) << 24)
                | ((b3 as u64) << 16) | ((b4 as u64) << 8) | (b5 as u64))
                < 0x1_0000_0000_0000) by (bit_vector);
        }
        ((b0 as u64) << 40) | ((b1 as u64) << 32) | ((b2 as u64) << 24)
            | ((b3 as u64) << 16) | ((b4 as u64) << 8) | (b5 as u64)
    }
}

} // verus!
