//! Tests of the sum2 message codec and its mask container format.

use fedcoord::error::{DecodeError, MaskDecodeError};
use fedcoord::mask::MaskObject;
use fedcoord::signature::{Signature, SIGNATURE_LENGTH};
use fedcoord::sum2::{Sum2, Sum2Buffer};

fn signature_bytes() -> Vec<u8> {
    vec![0x99; SIGNATURE_LENGTH]
}

fn signature() -> Signature {
    Signature::from_slice(&signature_bytes()).unwrap()
}

/// The canonical mask fixture: 28 payload bytes behind a 4-byte
/// big-endian length field, 32 bytes on the wire in all.
fn mask_payload() -> Vec<u8> {
    let mut payload = Vec::new();
    for i in 0..28u8 {
        payload.push(i);
    }
    payload
}

fn mask_bytes() -> Vec<u8> {
    let mut bytes = vec![0x00, 0x00, 0x00, 28];
    bytes.extend(mask_payload());
    bytes
}

fn mask_object() -> MaskObject {
    MaskObject::new(mask_payload()).unwrap()
}

fn sum2_fixture() -> (Sum2, Vec<u8>) {
    let mut bytes = signature_bytes();
    bytes.extend(mask_bytes());
    let sum2 = Sum2 { sum_signature: signature(), mask: mask_object() };
    (sum2, bytes)
}

#[test]
fn buffer_read() {
    let bytes = sum2_fixture().1;
    let buffer = Sum2Buffer::new(bytes).unwrap();
    assert_eq!(buffer.sum_signature(), signature_bytes());
    assert_eq!(buffer.mask(), mask_bytes());
}

#[test]
fn buffer_write() {
    let bytes = vec![0xff; 96];
    let mut buffer = Sum2Buffer::new_unchecked(bytes);
    buffer.sum_signature_mut(&signature_bytes());
    buffer.mask_mut(&mask_bytes());
    assert_eq!(buffer.into_inner(), sum2_fixture().1);
}

#[test]
fn encode() {
    let (sum2, bytes) = sum2_fixture();
    assert_eq!(sum2.buffer_length(), bytes.len());

    let mut buf = vec![0xff; sum2.buffer_length()];
    sum2.to_bytes(&mut buf);
    assert_eq!(buf, bytes);
}

#[test]
fn decode() {
    let (sum2, bytes) = sum2_fixture();
    let parsed = Sum2::from_bytes(&bytes).unwrap();
    assert_eq!(parsed, sum2);
}

#[test]
fn canonical_fixture_round_trip() {
    // 64 bytes of 0x99, then the 32-byte canonical mask fixture.
    let (sum2, bytes) = sum2_fixture();
    assert_eq!(bytes.len(), 96);
    let parsed = Sum2::from_bytes(&bytes).unwrap();
    assert_eq!(parsed.sum_signature.as_bytes(), signature().as_bytes());
    assert_eq!(parsed.mask.data(), mask_object().data());
    assert_eq!(parsed, sum2);

    let mut reencoded = vec![0x00; parsed.buffer_length()];
    parsed.to_bytes(&mut reencoded);
    assert_eq!(reencoded, bytes);
}

#[test]
fn decode_short_buffer_fails_before_mask() {
    // Shorter than the signature prefix: a length mismatch, not a mask error.
    let bytes = vec![0x99; 10];
    let err = Sum2::from_bytes(&bytes).unwrap_err();
    assert_eq!(err, DecodeError::BufferLength { actual: 10, expected: SIGNATURE_LENGTH });

    let err = Sum2Buffer::new(bytes).unwrap_err();
    assert_eq!(err, DecodeError::BufferLength { actual: 10, expected: SIGNATURE_LENGTH });
}

#[test]
fn decode_truncated_mask_region_fails_as_invalid_mask() {
    // A full signature, then a mask region whose length field is cut off.
    let mut bytes = signature_bytes();
    bytes.extend(vec![0x00, 0x01]);
    let err = Sum2::from_bytes(&bytes).unwrap_err();
    assert_eq!(
        err,
        DecodeError::InvalidMask {
            cause: MaskDecodeError::BufferLength { actual: 2, expected: 4 },
        }
    );
}

#[test]
fn decode_overlong_mask_declaration_fails_as_invalid_mask() {
    // A full signature, then a mask region declaring 99 payload bytes
    // while only 3 follow.
    let mut bytes = signature_bytes();
    bytes.extend(vec![0x00, 0x00, 0x00, 99, 0x01, 0x02, 0x03]);
    let err = Sum2::from_bytes(&bytes).unwrap_err();
    assert_eq!(
        err,
        DecodeError::InvalidMask {
            cause: MaskDecodeError::DataLength { actual: 3, expected: 99 },
        }
    );
}

#[test]
fn mask_round_trip_and_trailing_bytes() {
    let mask = mask_object();
    assert_eq!(mask.buffer_length(), 32);
    let wire = mask.to_bytes();
    assert_eq!(wire, mask_bytes());

    let parsed = MaskObject::from_bytes(&wire).unwrap();
    assert_eq!(parsed, mask);

    // Trailing bytes after the declared payload are ignored.
    let mut padded = wire.clone();
    padded.extend(vec![0xaa, 0xbb]);
    let parsed = MaskObject::from_bytes(&padded).unwrap();
    assert_eq!(parsed, mask);
}

#[test]
fn mask_errors_are_exact() {
    let err = MaskObject::from_bytes(&vec![0x00]).unwrap_err();
    assert_eq!(err, MaskDecodeError::BufferLength { actual: 1, expected: 4 });

    let err = MaskObject::from_bytes(&vec![0x00, 0x00, 0x00, 5, 0x01]).unwrap_err();
    assert_eq!(err, MaskDecodeError::DataLength { actual: 1, expected: 5 });
}

#[test]
fn signature_length_is_checked() {
    assert!(Signature::from_slice(&vec![0x99; 63]).is_none());
    assert!(Signature::from_slice(&vec![0x99; 65]).is_none());
    let sig = Signature::from_slice(&signature_bytes()).unwrap();
    assert_eq!(sig.as_bytes(), &signature_bytes());
}

#[test]
fn empty_mask_payload_encodes_and_decodes() {
    let mask = MaskObject::new(Vec::new()).unwrap();
    assert_eq!(mask.buffer_length(), 4);
    let wire = mask.to_bytes();
    assert_eq!(wire, vec![0x00, 0x00, 0x00, 0x00]);
    let parsed = MaskObject::from_bytes(&wire).unwrap();
    assert_eq!(parsed, mask);
}
