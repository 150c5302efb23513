use std::cell::Cell;

use ulid::{Ulid, UlidError};

#[test]
fn new() {
    let ulid = Ulid::new(1_484_581_420, || 4);
    assert_eq!(ulid.to_string(), "0001C7STHC0G2081040G208104");
}

#[test]
fn unmarshal() {
    let ulid = Ulid::unmarshal("0001C7STHC0G2081040G208104");
    let ulid2 = Ulid::new(1_484_581_420, || 4);
    assert_eq!(ulid.unwrap(), ulid2);

    let res = Ulid::unmarshal("0001C7STHC0G2O81040G208104");
    assert!(res.is_err());

    let res = Ulid::unmarshal("0001C7STHC0G2O81040G20810");
    assert!(res.is_err());
}

#[test]
fn timestamp() {
    let ulid = Ulid::unmarshal("0001C7STHC0G2081040G208104").unwrap();
    assert_eq!(ulid.timestamp(), 1_484_581_420);
}

#[test]
fn alizain_compatibility() {
    let ulid: Ulid = Ulid::new(1_469_918_176_385, || 0);
    assert_eq!(ulid.to_string(), "01ARYZ6S410000000000000000");
}

#[test]
fn lexicographical_order() {
    let ulid1 = Ulid::new(1_469_918_176_385, || 0);
    let ulid2 = Ulid::new(1_469_918_176_386, || 0);
    assert!(ulid1 < ulid2);
    assert!(ulid2 > ulid1);
}

#[test]
fn lexicographical_order_of_text() {
    let ulid1 = Ulid::new(1_469_918_176_385, || 0);
    let ulid2 = Ulid::new(1_469_918_176_386, || 0);
    assert!(ulid1.to_string() < ulid2.to_string());
}

#[test]
fn binary_round_trip() {
    let bytes = [
        0x01, 0x63, 0x3F, 0x5C, 0xAA, 0x2C, 0xDE, 0xAD, 0xBE, 0xEF, 0x00, 0x7F, 0x80, 0xFF, 0x55,
        0xAA,
    ];
    let ulid = Ulid::from_bytes(bytes);
    let text = ulid.marshal();
    let back = Ulid::unmarshal_bytes(&text).unwrap();
    assert_eq!(back.bytes(), bytes);
    assert_eq!(back, ulid);
}

#[test]
fn text_round_trip() {
    let texts = ["0001C7STHC0G2081040G208104", "01ARYZ6S410000000000000000", "7ZZZZZZZZZZZZZZZZZZZZZZZZZ", "00000000000000000000000000"];
    for text in texts.iter() {
        let ulid = Ulid::unmarshal(*text).unwrap();
        assert_eq!(ulid.to_string(), *text);
    }
}

#[test]
fn overflow_bits_of_first_symbol_are_masked() {
    let masked = Ulid::unmarshal("8ZZZZZZZZZZZZZZZZZZZZZZZZZ").unwrap();
    let plain = Ulid::unmarshal("0ZZZZZZZZZZZZZZZZZZZZZZZZZ").unwrap();
    assert_eq!(masked, plain);
    assert_eq!(masked.to_string(), "0ZZZZZZZZZZZZZZZZZZZZZZZZZ");
}

#[test]
fn invalid_length_is_reported() {
    assert_eq!(Ulid::unmarshal("").unwrap_err(), UlidError::InvalidLength);
    assert_eq!(
        Ulid::unmarshal("0001C7STHC0G2O81040G20810").unwrap_err(),
        UlidError::InvalidLength
    );
    assert_eq!(
        Ulid::unmarshal("0001C7STHC0G2081040G2081040").unwrap_err(),
        UlidError::InvalidLength
    );
}

#[test]
fn invalid_character_is_reported() {
    assert_eq!(
        Ulid::unmarshal("0001C7STHC0G2O81040G208104").unwrap_err(),
        UlidError::InvalidCharacter
    );
    assert_eq!(
        Ulid::unmarshal("I001C7STHC0G2081040G208104").unwrap_err(),
        UlidError::InvalidCharacter
    );
    assert_eq!(
        Ulid::unmarshal("L001C7STHC0G2081040G208104").unwrap_err(),
        UlidError::InvalidCharacter
    );
    assert_eq!(
        Ulid::unmarshal("U001C7STHC0G2081040G208104").unwrap_err(),
        UlidError::InvalidCharacter
    );
    assert_eq!(
        Ulid::unmarshal(" 001C7STHC0G2081040G208104").unwrap_err(),
        UlidError::InvalidCharacter
    );
}

#[test]
fn lowercase_is_rejected() {
    assert_eq!(
        Ulid::unmarshal("0001c7sthc0g2081040g208104").unwrap_err(),
        UlidError::InvalidCharacter
    );
}

#[test]
fn unmarshal_bytes_matches_unmarshal() {
    let from_bytes = Ulid::unmarshal_bytes(b"0001C7STHC0G2081040G208104").unwrap();
    let from_str = Ulid::unmarshal("0001C7STHC0G2081040G208104").unwrap();
    assert_eq!(from_bytes, from_str);
}

#[test]
fn timestamp_is_truncated_to_48_bits() {
    let ulid = Ulid::new(u64::MAX, || 7);
    assert_eq!(ulid.timestamp(), 0xFFFF_FFFF_FFFF);
    let small = Ulid::new(1_484_581_420, || 7);
    assert_eq!(small.timestamp(), 1_484_581_420);
}

#[test]
fn entropy_source_is_called_in_order() {
    let counter = Cell::new(0u8);
    let ulid = Ulid::new(0, || {
        let next = counter.get() + 1;
        counter.set(next);
        next
    });
    assert_eq!(counter.get(), 10);
    let expected = Ulid::from_bytes([0, 0, 0, 0, 0, 0, 1, 2, 3, 4, 5, 6, 7, 8, 9, 10]);
    assert_eq!(ulid, expected);
}

#[test]
fn precedes_agrees_with_comparison() {
    let ulid1 = Ulid::new(1_469_918_176_385, || 0);
    let ulid2 = Ulid::new(1_469_918_176_386, || 0);
    assert!(ulid1.precedes(&ulid2));
    assert!(!ulid2.precedes(&ulid1));
    assert!(!ulid1.precedes(&ulid1));
    let a = Ulid::from_bytes([0; 16]);
    let b = Ulid::from_bytes([0, 0, 0, 0, 0, 0, 0, 0, 0, 0, 0, 0, 0, 0, 0, 1]);
    assert!(a.precedes(&b));
    assert_eq!(a < b, a.precedes(&b));
    assert_eq!(b < a, b.precedes(&a));
}

#[test]
fn byte_conversions_are_lossless() {
    let bytes = [
        0x00, 0x01, 0x5A, 0xDF, 0x11, 0x2C, 0x10, 0x20, 0x40, 0x80, 0x01, 0x02, 0x04, 0x08, 0x10,
        0x20,
    ];
    let ulid = Ulid::from_bytes(bytes);
    assert_eq!(ulid.bytes(), bytes);
    assert_eq!(ulid.to_vec(), bytes.to_vec());
    let again = Ulid::from_slice(&bytes[..]).unwrap();
    assert_eq!(again, ulid);
    assert!(Ulid::from_slice(&bytes[..15]).is_none());
    assert!(Ulid::from_slice(&[]).is_none());
}

#[test]
fn marshal_returns_the_text_bytes() {
    let ulid = Ulid::new(1_484_581_420, || 4);
    let text = ulid.marshal();
    assert_eq!(&text[..], "0001C7STHC0G2081040G208104".as_bytes());
}
