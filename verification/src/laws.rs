//! The laws of the codec: the two round trips, timestamp fidelity, and the
//! order-preservation that makes the identifiers lexicographically sortable.

use vstd::prelude::*;

use crate::base32;
use crate::low48;
use crate::ulid::{all_valid, byte_at, bytes_of, decoded, sym_at, text_of, ts_byte, ts_of};
use crate::ulid::{lemma_lex_lt_intro, lemma_syms_bound, lex_lt};

verus! {

/// Timestamp fidelity: six big-endian timestamp bytes of `t` read back as
/// exactly the low 48 bits of `t`. [`crate::Ulid::new`] establishes the
/// premise for every timestamp and entropy source, and
/// [`crate::Ulid::timestamp`] returns [`ts_of`].
pub proof fn lemma_timestamp_fidelity(v: Seq<u8>, t: u64)
    requires
        v.len() == 16,
        forall|i: int| 0 <= i < 6 ==> v[i] == ts_byte(t, i),
    ensures
        ts_of(v) == low48(t),
{
    let v0 = v[0];
    let v1 = v[1];
    let v2 = v[2];
    let v3 = v[3];
    let v4 = v[4];
    let v5 = v[5];
    assert(t >> 0 == t) by (bit_vector);
    assert((((v0 as u64) << 40) | ((v1 as u64) << 32) | ((v2 as u64) << 24)
        | ((v3 as u64) << 16) | ((v4 as u64) << 8) | (v5 as u64)) == (t & 0xFFFF_FFFF_FFFF))
        by (bit_vector)
        requires
            v0 == (t >> 40) as u8,
            v1 == (t >> 32) as u8,
            v2 == (t >> 24) as u8,
            v3 == (t >> 16) as u8,
            v4 == (t >> 8) as u8,
            v5 == (t >> 0) as u8,
    ;
}

/// Binary round trip: the text form of any 16 bytes is 26 valid alphabet
/// characters, and decoding and reassembling it gives the 16 bytes back.
/// With the contracts of [`crate::Ulid::marshal`] and
/// [`crate::Ulid::unmarshal_bytes`] this says that unmarshalling a
/// marshalled identifier returns `Ok` with the identifier itself.
pub proof fn lemma_binary_round_trip(v: Seq<u8>)
    requires
        v.len() == 16,
    ensures
        text_of(v).len() == 26,
        all_valid(text_of(v)),
        bytes_of(decoded(text_of(v))) == v,
{
    base32::lemma_decode_encode();
    lemma_syms_bound(v);
    assert(forall|i: int| 0 <= i < 26 ==> base32::is_valid_char(#[trigger] text_of(v)[i]));

    let w = decoded(text_of(v));
    assert(forall|i: int| 0 <= i < 26 ==> #[trigger] w[i] == sym_at(v, i));

    let v0 = v[0];
    let v1 = v[1];
    let v2 = v[2];
    let v3 = v[3];
    let v4 = v[4];
    let v5 = v[5];
    let v6 = v[6];
    let v7 = v[7];
    let v8 = v[8];
    let v9 = v[9];
    let v10 = v[10];
    let v11 = v[11];
    let v12 = v[12];
    let v13 = v[13];
    let v14 = v[14];
    let v15 = v[15];
    let s0: u8 = (v0 & 224) >> 5;
    let s1: u8 = v0 & 31;
    let s2: u8 = (v1 & 248) >> 3;
    let s3: u8 = ((v1 & 7) << 2) | ((v2 & 192) >> 6);
    let s4: u8 = (v2 & 62) >> 1;
    let s5: u8 = ((v2 & 1) << 4) | ((v3 & 240) >> 4);
    let s6: u8 = ((v3 & 15) << 1) | ((v4 & 128) >> 7);
    let s7: u8 = (v4 & 124) >> 2;
    let s8: u8 = ((v4 & 3) << 3) | ((v5 & 224) >> 5);
    let s9: u8 = v5 & 31;
    let s10: u8 = (v6 & 248) >> 3;
    let s11: u8 = ((v6 & 7) << 2) | ((v7 & 192) >> 6);
    let s12: u8 = (v7 & 62) >> 1;
    let s13: u8 = ((v7 & 1) << 4) | ((v8 & 240) >> 4);
    let s14: u8 = ((v8 & 15) << 1) | ((v9 & 128) >> 7);
    let s15: u8 = (v9 & 124) >> 2;
    let s16: u8 = ((v9 & 3) << 3) | ((v10 & 224) >> 5);
    let s17: u8 = v10 & 31;
    let s18: u8 = (v11 & 248) >> 3;
    let s19: u8 = ((v11 & 7) << 2) | ((v12 & 192) >> 6);
    let s20: u8 = (v12 & 62) >> 1;
    let s21: u8 = ((v12 & 1) << 4) | ((v13 & 240) >> 4);
    let s22: u8 = ((v13 & 15) << 1) | ((v14 & 128) >> 7);
    let s23: u8 = (v14 & 124) >> 2;
    let s24: u8 = ((v14 & 3) << 3) | ((v15 & 224) >> 5);
    let s25: u8 = v15 & 31;
    assert(v0 == ((s0 << 5) | s1)
        && v1 == ((s2 << 3) | (s3 >> 2))
        && v2 == ((s3 << 6) | (s4 << 1) | (s5 >> 4))
        && v3 == ((s5 << 4) | (s6 >> 1))
        && v4 == ((s6 << 7) | (s7 << 2) | (s8 >> 3))
        && v5 == ((s8 << 5) | s9)
        && v6 == ((s10 << 3) | (s11 >> 2))
        && v7 == ((s11 << 6) | (s12 << 1) | (s13 >> 4))
        && v8 == ((s13 << 4) | (s14 >> 1))
        && v9 == ((s14 << 7) | (s15 << 2) | (s16 >> 3))
        && v10 == ((s16 << 5) | s17)
        && v11 == ((s18 << 3) | (s19 >> 2))
        && v12 == ((s19 << 6) | (s20 << 1) | (s21 >> 4))
        && v13 == ((s21 << 4) | (s22 >> 1))
        && v14 == ((s22 << 7) | (s23 << 2) | (s24 >> 3))
        && v15 == ((s24 << 5) | s25)) by (bit_vector)
        requires
            s0 == (v0 & 224) >> 5,
            s1 == v0 & 31,
            s2 == (v1 & 248) >> 3,
            s3 == ((v1 & 7) << 2) | ((v2 & 192) >> 6),
            s4 == (v2 & 62) >> 1,
            s5 == ((v2 & 1) << 4) | ((v3 & 240) >> 4),
            s6 == ((v3 & 15) << 1) | ((v4 & 128) >> 7),
            s7 == (v4 & 124) >> 2,
            s8 == ((v4 & 3) << 3) | ((v5 & 224) >> 5),
            s9 == v5 & 31,
            s10 == (v6 & 248) >> 3,
            s11 == ((v6 & 7) << 2) | ((v7 & 192) >> 6),
            s12 == (v7 & 62) >> 1,
            s13 == ((v7 & 1) << 4) | ((v8 & 240) >> 4),
            s14 == ((v8 & 15) << 1) | ((v9 & 128) >> 7),
            s15 == (v9 & 124) >> 2,
            s16 == ((v9 & 3) << 3) | ((v10 & 224) >> 5),
            s17 == v10 & 31,
            s18 == (v11 & 248) >> 3,
            s19 == ((v11 & 7) << 2) | ((v12 & 192) >> 6),
            s20 == (v12 & 62) >> 1,
            s21 == ((v12 & 1) << 4) | ((v13 & 240) >> 4),
            s22 == ((v13 & 15) << 1) | ((v14 & 128) >> 7),
            s23 == (v14 & 124) >> 2,
            s24 == ((v14 & 3) << 3) | ((v15 & 224) >> 5),
            s25 == v15 & 31,
    ;

    assert(byte_at(w, 0) == v[0]);
    assert(byte_at(w, 1) == v[1]);
    assert(byte_at(w, 2) == v[2]);
    assert(byte_at(w, 3) == v[3]);
    assert(byte_at(w, 4) == v[4]);
    assert(byte_at(w, 5) == v[5]);
    assert(byte_at(w, 6) == v[6]);
    assert(byte_at(w, 7) == v[7]);
    assert(byte_at(w, 8) == v[8]);
    assert(byte_at(w, 9) == v[9]);
    assert(byte_at(w, 10) == v[10]);
    assert(byte_at(w, 11) == v[11]);
    assert(byte_at(w, 12) == v[12]);
    assert(byte_at(w, 13) == v[13]);
    assert(byte_at(w, 14) == v[14]);
    assert(byte_at(w, 15) == v[15]);
    assert(bytes_of(w) =~= v);
}

/// Text round trip: marshalling the identifier decoded from a valid
/// 26-character text gives the text back, provided the first character
/// decodes below 8 (a larger first symbol would carry overflow bits that
/// decoding masks away, so it cannot survive the round trip).
pub proof fn lemma_text_round_trip(s: Seq<u8>)
    requires
        s.len() == 26,
        all_valid(s),
        base32::decode_char(s[0]) < 8,
    ensures
        text_of(bytes_of(decoded(s))) == s,
{
    base32::lemma_encode_decode();
    let w = decoded(s);
    let v = bytes_of(w);

    let w0 = w[0];
    let w1 = w[1];
    let w2 = w[2];
    let w3 = w[3];
    let w4 = w[4];
    let w5 = w[5];
    let w6 = w[6];
    let w7 = w[7];
    let w8 = w[8];
    let w9 = w[9];
    let w10 = w[10];
    let w11 = w[11];
    let w12 = w[12];
    let w13 = w[13];
    let w14 = w[14];
    let w15 = w[15];
    let w16 = w[16];
    let w17 = w[17];
    let w18 = w[18];
    let w19 = w[19];
    let w20 = w[20];
    let w21 = w[21];
    let w22 = w[22];
    let w23 = w[23];
    let w24 = w[24];
    let w25 = w[25];
    let b0: u8 = (w0 << 5) | w1;
    let b1: u8 = (w2 << 3) | (w3 >> 2);
    let b2: u8 = (w3 << 6) | (w4 << 1) | (w5 >> 4);
    let b3: u8 = (w5 << 4) | (w6 >> 1);
    let b4: u8 = (w6 << 7) | (w7 << 2) | (w8 >> 3);
    let b5: u8 = (w8 << 5) | w9;
    let b6: u8 = (w10 << 3) | (w11 >> 2);
    let b7: u8 = (w11 << 6) | (w12 << 1) | (w13 >> 4);
    let b8: u8 = (w13 << 4) | (w14 >> 1);
    let b9: u8 = (w14 << 7) | (w15 << 2) | (w16 >> 3);
    let b10: u8 = (w16 << 5) | w17;
    let b11: u8 = (w18 << 3) | (w19 >> 2);
    let b12: u8 = (w19 << 6) | (w20 << 1) | (w21 >> 4);
    let b13: u8 = (w21 << 4) | (w22 >> 1);
    let b14: u8 = (w22 << 7) | (w23 << 2) | (w24 >> 3);
    let b15: u8 = (w24 << 5) | w25;
    assert(((b0 & 224) >> 5) == w0
        && (b0 & 31) == w1
        && ((b1 & 248) >> 3) == w2
        && (((b1 & 7) << 2) | ((b2 & 192) >> 6)) == w3
        && ((b2 & 62) >> 1) == w4
        && (((b2 & 1) << 4) | ((b3 & 240) >> 4)) == w5
        && (((b3 & 15) << 1) | ((b4 & 128) >> 7)) == w6
        && ((b4 & 124) >> 2) == w7
        && (((b4 & 3) << 3) | ((b5 & 224) >> 5)) == w8
        && (b5 & 31) == w9
        && ((b6 & 248) >> 3) == w10
        && (((b6 & 7) << 2) | ((b7 & 192) >> 6)) == w11
        && ((b7 & 62) >> 1) == w12
        && (((b7 & 1) << 4) | ((b8 & 240) >> 4)) == w13
        && (((b8 & 15) << 1) | ((b9 & 128) >> 7)) == w14
        && ((b9 & 124) >> 2) == w15
        && (((b9 & 3) << 3) | ((b10 & 224) >> 5)) == w16
        && (b10 & 31) == w17
        && ((b11 & 248) >> 3) == w18
        && (((b11 & 7) << 2) | ((b12 & 192) >> 6)) == w19
        && ((b12 & 62) >> 1) == w20
        && (((b12 & 1) << 4) | ((b13 & 240) >> 4)) == w21
        && (((b13 & 15) << 1) | ((b14 & 128) >> 7)) == w22
        && ((b14 & 124) >> 2) == w23
        && (((b14 & 3) << 3) | ((b15 & 224) >> 5)) == w24
        && (b15 & 31) == w25) by (bit_vector)
        requires
            w0 < 8,
            w1 < 32,
            w2 < 32,
            w3 < 32,
            w4 < 32,
            w5 < 32,
            w6 < 32,
            w7 < 32,
            w8 < 32,
            w9 < 32,
            w10 < 32,
            w11 < 32,
            w12 < 32,
            w13 < 32,
            w14 < 32,
            w15 < 32,
            w16 < 32,
            w17 < 32,
            w18 < 32,
            w19 < 32,
            w20 < 32,
            w21 < 32,
            w22 < 32,
            w23 < 32,
            w24 < 32,
            w25 < 32,
            b0 == (w0 << 5) | w1,
            b1 == (w2 << 3) | (w3 >> 2),
            b2 == (w3 << 6) | (w4 << 1) | (w5 >> 4),
            b3 == (w5 << 4) | (w6 >> 1),
            b4 == (w6 << 7) | (w7 << 2) | (w8 >> 3),
            b5 == (w8 << 5) | w9,
            b6 == (w10 << 3) | (w11 >> 2),
            b7 == (w11 << 6) | (w12 << 1) | (w13 >> 4),
            b8 == (w13 << 4) | (w14 >> 1),
            b9 == (w14 << 7) | (w15 << 2) | (w16 >> 3),
            b10 == (w16 << 5) | w17,
            b11 == (w18 << 3) | (w19 >> 2),
            b12 == (w19 << 6) | (w20 << 1) | (w21 >> 4),
            b13 == (w21 << 4) | (w22 >> 1),
            b14 == (w22 << 7) | (w23 << 2) | (w24 >> 3),
            b15 == (w24 << 5) | w25,
    ;

    assert(v[0] == b0);
    assert(v[1] == b1);
    assert(v[2] == b2);
    assert(v[3] == b3);
    assert(v[4] == b4);
    assert(v[5] == b5);
    assert(v[6] == b6);
    assert(v[7] == b7);
    assert(v[8] == b8);
    assert(v[9] == b9);
    assert(v[10] == b10);
    assert(v[11] == b11);
    assert(v[12] == b12);
    assert(v[13] == b13);
    assert(v[14] == b14);
    assert(v[15] == b15);
    assert(sym_at(v, 0) == w[0]);
    assert(sym_at(v, 1) == w[1]);
    assert(sym_at(v, 2) == w[2]);
    assert(sym_at(v, 3) == w[3]);
    assert(sym_at(v, 4) == w[4]);
    assert(sym_at(v, 5) == w[5]);
    assert(sym_at(v, 6) == w[6]);
    assert(sym_at(v, 7) == w[7]);
    assert(sym_at(v, 8) == w[8]);
    assert(sym_at(v, 9) == w[9]);
    assert(sym_at(v, 10) == w[10]);
    assert(sym_at(v, 11) == w[11]);
    assert(sym_at(v, 12) == w[12]);
    assert(sym_at(v, 13) == w[13]);
    assert(sym_at(v, 14) == w[14]);
    assert(sym_at(v, 15) == w[15]);
    assert(sym_at(v, 16) == w[16]);
    assert(sym_at(v, 17) == w[17]);
    assert(sym_at(v, 18) == w[18]);
    assert(sym_at(v, 19) == w[19]);
    assert(sym_at(v, 20) == w[20]);
    assert(sym_at(v, 21) == w[21]);
    assert(sym_at(v, 22) == w[22]);
    assert(sym_at(v, 23) == w[23]);
    assert(sym_at(v, 24) == w[24]);
    assert(sym_at(v, 25) == w[25]);
    assert(forall|i: int| 0 <= i < 26 ==> #[trigger] text_of(v)[i] == s[i]);
    assert(text_of(v) =~= s);
}

/// Ordering: an identifier with a smaller timestamp is smaller, whatever
/// the entropy bytes, both byte-wise on the binary form and byte-wise on
/// the text form. This is what makes ULIDs lexicographically sortable.
pub proof fn lemma_chronological_order(a: Seq<u8>, b: Seq<u8>)
    requires
        a.len() == 16,
        b.len() == 16,
        ts_of(a) < ts_of(b),
    ensures
        lex_lt(a, b),
        lex_lt(text_of(a), text_of(b)),
{
    let a0 = a[0];
    let a1 = a[1];
    let a2 = a[2];
    let a3 = a[3];
    let a4 = a[4];
    let a5 = a[5];
    let b0 = b[0];
    let b1 = b[1];
    let b2 = b[2];
    let b3 = b[3];
    let b4 = b[4];
    let b5 = b[5];

    // The first of the six timestamp bytes where the two differ favours `a`.
    assert((a0 < b0)
        || (a0 == b0 && a1 < b1)
        || (a0 == b0 && a1 == b1 && a2 < b2)
        || (a0 == b0 && a1 == b1 && a2 == b2 && a3 < b3)
        || (a0 == b0 && a1 == b1 && a2 == b2 && a3 == b3 && a4 < b4)
        || (a0 == b0 && a1 == b1 && a2 == b2 && a3 == b3 && a4 == b4 && a5 < b5))
        by (bit_vector)
        requires
            (((a0 as u64) << 40) | ((a1 as u64) << 32) | ((a2 as u64) << 24)
                | ((a3 as u64) << 16) | ((a4 as u64) << 8) | (a5 as u64))
                < (((b0 as u64) << 40) | ((b1 as u64) << 32) | ((b2 as u64) << 24)
                | ((b3 as u64) << 16) | ((b4 as u64) << 8) | (b5 as u64)),
    ;
    if a0 < b0 {
        lemma_lex_lt_intro(a, b, 0);
    } else if a1 < b1 {
        lemma_lex_lt_intro(a, b, 1);
    } else if a2 < b2 {
        lemma_lex_lt_intro(a, b, 2);
    } else if a3 < b3 {
        lemma_lex_lt_intro(a, b, 3);
    } else if a4 < b4 {
        lemma_lex_lt_intro(a, b, 4);
    } else {
        lemma_lex_lt_intro(a, b, 5);
    }

    // The first ten symbols are the base-32 digits of the timestamp.
    let ta = ts_of(a);
    let tb = ts_of(b);
    let da0: u8 = ((ta >> 45) & 31) as u8;
    let da1: u8 = ((ta >> 40) & 31) as u8;
    let da2: u8 = ((ta >> 35) & 31) as u8;
    let da3: u8 = ((ta >> 30) & 31) as u8;
    let da4: u8 = ((ta >> 25) & 31) as u8;
    let da5: u8 = ((ta >> 20) & 31) as u8;
    let da6: u8 = ((ta >> 15) & 31) as u8;
    let da7: u8 = ((ta >> 10) & 31) as u8;
    let da8: u8 = ((ta >> 5) & 31) as u8;
    let da9: u8 = (ta & 31) as u8;
    let db0: u8 = ((tb >> 45) & 31) as u8;
    let db1: u8 = ((tb >> 40) & 31) as u8;
    let db2: u8 = ((tb >> 35) & 31) as u8;
    let db3: u8 = ((tb >> 30) & 31) as u8;
    let db4: u8 = ((tb >> 25) & 31) as u8;
    let db5: u8 = ((tb >> 20) & 31) as u8;
    let db6: u8 = ((tb >> 15) & 31) as u8;
    let db7: u8 = ((tb >> 10) & 31) as u8;
    let db8: u8 = ((tb >> 5) & 31) as u8;
    let db9: u8 = (tb & 31) as u8;
    assert(((a0 & 224) >> 5) == da0
        && (a0 & 31) == da1
        && ((a1 & 248) >> 3) == da2
        && (((a1 & 7) << 2) | ((a2 & 192) >> 6)) == da3
        && ((a2 & 62) >> 1) == da4
        && (((a2 & 1) << 4) | ((a3 & 240) >> 4)) == da5
        && (((a3 & 15) << 1) | ((a4 & 128) >> 7)) == da6
        && ((a4 & 124) >> 2) == da7
        && (((a4 & 3) << 3) | ((a5 & 224) >> 5)) == da8
        && (a5 & 31) == da9)
        by (bit_vector)
        requires
            ta == (((a0 as u64) << 40) | ((a1 as u64) << 32) | ((a2 as u64) << 24)
                | ((a3 as u64) << 16) | ((a4 as u64) << 8) | (a5 as u64)),
            da0 == ((ta >> 45) & 31) as u8,
            da1 == ((ta >> 40) & 31) as u8,
            da2 == ((ta >> 35) & 31) as u8,
            da3 == ((ta >> 30) & 31) as u8,
            da4 == ((ta >> 25) & 31) as u8,
            da5 == ((ta >> 20) & 31) as u8,
            da6 == ((ta >> 15) & 31) as u8,
            da7 == ((ta >> 10) & 31) as u8,
            da8 == ((ta >> 5) & 31) as u8,
            da9 == (ta & 31) as u8,
    ;
    assert(((b0 & 224) >> 5) == db0
        && (b0 & 31) == db1
        && ((b1 & 248) >> 3) == db2
        && (((b1 & 7) << 2) | ((b2 & 192) >> 6)) == db3
        && ((b2 & 62) >> 1) == db4
        && (((b2 & 1) << 4) | ((b3 & 240) >> 4)) == db5
        && (((b3 & 15) << 1) | ((b4 & 128) >> 7)) == db6
        && ((b4 & 124) >> 2) == db7
        && (((b4 & 3) << 3) | ((b5 & 224) >> 5)) == db8
        && (b5 & 31) == db9)
        by (bit_vector)
        requires
            tb == (((b0 as u64) << 40) | ((b1 as u64) << 32) | ((b2 as u64) << 24)
                | ((b3 as u64) << 16) | ((b4 as u64) << 8) | (b5 as u64)),
            db0 == ((tb >> 45) & 31) as u8,
            db1 == ((tb >> 40) & 31) as u8,
            db2 == ((tb >> 35) & 31) as u8,
            db3 == ((tb >> 30) & 31) as u8,
            db4 == ((tb >> 25) & 31) as u8,
            db5 == ((tb >> 20) & 31) as u8,
            db6 == ((tb >> 15) & 31) as u8,
            db7 == ((tb >> 10) & 31) as u8,
            db8 == ((tb >> 5) & 31) as u8,
            db9 == (tb & 31) as u8,
    ;
    assert(sym_at(a, 0) == da0);
    assert(sym_at(a, 1) == da1);
    assert(sym_at(a, 2) == da2);
    assert(sym_at(a, 3) == da3);
    assert(sym_at(a, 4) == da4);
    assert(sym_at(a, 5) == da5);
    assert(sym_at(a, 6) == da6);
    assert(sym_at(a, 7) == da7);
    assert(sym_at(a, 8) == da8);
    assert(sym_at(a, 9) == da9);
    assert(sym_at(b, 0) == db0);
    assert(sym_at(b, 1) == db1);
    assert(sym_at(b, 2) == db2);
    assert(sym_at(b, 3) == db3);
    assert(sym_at(b, 4) == db4);
    assert(sym_at(b, 5) == db5);
    assert(sym_at(b, 6) == db6);
    assert(sym_at(b, 7) == db7);
    assert(sym_at(b, 8) == db8);
    assert(sym_at(b, 9) == db9);

    // A smaller 48-bit number has the smaller base-32 digit sequence.
    assert((da0 < db0)
        || (da0 == db0 && da1 < db1)
        || (da0 == db0 && da1 == db1 && da2 < db2)
        || (da0 == db0 && da1 == db1 && da2 == db2 && da3 < db3)
        || (da0 == db0 && da1 == db1 && da2 == db2 && da3 == db3 && da4 < db4)
        || (da0 == db0 && da1 == db1 && da2 == db2 && da3 == db3 && da4 == db4 && da5 < db5)
        || (da0 == db0 && da1 == db1 && da2 == db2 && da3 == db3 && da4 == db4 && da5 == db5
            && da6 < db6)
        || (da0 == db0 && da1 == db1 && da2 == db2 && da3 == db3 && da4 == db4 && da5 == db5
            && da6 == db6 && da7 < db7)
        || (da0 == db0 && da1 == db1 && da2 == db2 && da3 == db3 && da4 == db4 && da5 == db5
            && da6 == db6 && da7 == db7 && da8 < db8)
        || (da0 == db0 && da1 == db1 && da2 == db2 && da3 == db3 && da4 == db4 && da5 == db5
            && da6 == db6 && da7 == db7 && da8 == db8 && da9 < db9))
        by (bit_vector)
        requires
            ta < tb,
            ta == (((a0 as u64) << 40) | ((a1 as u64) << 32) | ((a2 as u64) << 24)
                | ((a3 as u64) << 16) | ((a4 as u64) << 8) | (a5 as u64)),
            tb == (((b0 as u64) << 40) | ((b1 as u64) << 32) | ((b2 as u64) << 24)
                | ((b3 as u64) << 16) | ((b4 as u64) << 8) | (b5 as u64)),
            da0 == ((ta >> 45) & 31) as u8,
            da1 == ((ta >> 40) & 31) as u8,
            da2 == ((ta >> 35) & 31) as u8,
            da3 == ((ta >> 30) & 31) as u8,
            da4 == ((ta >> 25) & 31) as u8,
            da5 == ((ta >> 20) & 31) as u8,
            da6 == ((ta >> 15) & 31) as u8,
            da7 == ((ta >> 10) & 31) as u8,
            da8 == ((ta >> 5) & 31) as u8,
            da9 == (ta & 31) as u8,
            db0 == ((tb >> 45) & 31) as u8,
            db1 == ((tb >> 40) & 31) as u8,
            db2 == ((tb >> 35) & 31) as u8,
            db3 == ((tb >> 30) & 31) as u8,
            db4 == ((tb >> 25) & 31) as u8,
            db5 == ((tb >> 20) & 31) as u8,
            db6 == ((tb >> 15) & 31) as u8,
            db7 == ((tb >> 10) & 31) as u8,
            db8 == ((tb >> 5) & 31) as u8,
            db9 == (tb & 31) as u8,
    ;

    lemma_syms_bound(a);
    lemma_syms_bound(b);
    base32::lemma_encode_monotone();
    let xa = text_of(a);
    let xb = text_of(b);
    if da0 != db0 {
        lemma_lex_lt_intro(xa, xb, 0);
    } else if da1 != db1 {
        assert(xa[0] == xb[0]);
        lemma_lex_lt_intro(xa, xb, 1);
    } else if da2 != db2 {
        assert(xa[0] == xb[0] && xa[1] == xb[1]);
        lemma_lex_lt_intro(xa, xb, 2);
    } else if da3 != db3 {
        assert(xa[0] == xb[0] && xa[1] == xb[1] && xa[2] == xb[2]);
        lemma_lex_lt_intro(xa, xb, 3);
    } else if da4 != db4 {
        assert(xa[0] == xb[0] && xa[1] == xb[1] && xa[2] == xb[2] && xa[3] == xb[3]);
        lemma_lex_lt_intro(xa, xb, 4);
    } else if da5 != db5 {
        assert(xa[0] == xb[0] && xa[1] == xb[1] && xa[2] == xb[2] && xa[3] == xb[3]
            && xa[4] == xb[4]);
        lemma_lex_lt_intro(xa, xb, 5);
    } else if da6 != db6 {
        assert(xa[0] == xb[0] && xa[1] == xb[1] && xa[2] == xb[2] && xa[3] == xb[3]
            && xa[4] == xb[4] && xa[5] == xb[5]);
        lemma_lex_lt_intro(xa, xb, 6);
    } else if da7 != db7 {
        assert(xa[0] == xb[0] && xa[1] == xb[1] && xa[2] == xb[2] && xa[3] == xb[3]
            && xa[4] == xb[4] && xa[5] == xb[5] && xa[6] == xb[6]);
        lemma_lex_lt_intro(xa, xb, 7);
    } else if da8 != db8 {
        assert(xa[0] == xb[0] && xa[1] == xb[1] && xa[2] == xb[2] && xa[3] == xb[3]
            && xa[4] == xb[4] && xa[5] == xb[5] && xa[6] == xb[6] && xa[7] == xb[7]);
        lemma_lex_lt_intro(xa, xb, 8);
    } else {
        assert(xa[0] == xb[0] && xa[1] == xb[1] && xa[2] == xb[2] && xa[3] == xb[3]
            && xa[4] == xb[4] && xa[5] == xb[5] && xa[6] == xb[6] && xa[7] == xb[7]
            && xa[8] == xb[8]);
        lemma_lex_lt_intro(xa, xb, 9);
    }
}

} // verus!
