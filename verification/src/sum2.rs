//! Sum2 message payloads: a fixed-length task-selection signature followed
//! by a self-describing mask region.

use vstd::prelude::*;
use crate::bytes_util::{bytes_eq, copy_bytes, copy_range};
use crate::error::DecodeError;
use crate::mask::{mask_payload, mask_region_error, mask_region_valid, mask_wire, MaskObject};
use crate::signature::{Signature, SIGNATURE_LENGTH};

verus! {

/// Whether `bytes` forms a valid sum2 message: long enough for the
/// signature prefix, with a structurally valid mask region after it.
pub open spec fn sum2_valid(bytes: Seq<u8>) -> bool {
    bytes.len() >= SIGNATURE_LENGTH && mask_region_valid(bytes.skip(SIGNATURE_LENGTH as int))
}

/// The signature bytes of a valid sum2 message.
pub open spec fn sum2_signature(bytes: Seq<u8>) -> Seq<u8>
    recommends
        sum2_valid(bytes),
{
    bytes.subrange(0, SIGNATURE_LENGTH as int)
}

/// The mask payload of a valid sum2 message.
pub open spec fn sum2_mask(bytes: Seq<u8>) -> Seq<u8>
    recommends
        sum2_valid(bytes),
{
    mask_payload(bytes.skip(SIGNATURE_LENGTH as int))
}

/// The error an invalid sum2 buffer yields, for the exact bounds the
/// validator checks: a length mismatch before the mask region is ever
/// looked at, else the nested mask error.
pub open spec fn sum2_error(bytes: Seq<u8>) -> DecodeError
    recommends
        !sum2_valid(bytes),
{
    if bytes.len() < SIGNATURE_LENGTH {
        DecodeError::BufferLength { actual: bytes.len() as usize, expected: SIGNATURE_LENGTH }
    } else {
        DecodeError::InvalidMask { cause: mask_region_error(bytes.skip(SIGNATURE_LENGTH as int)) }
    }
}

/// A wrapper around a byte buffer that holds a sum2 message.
///
/// The validating constructor performs the bound checks once; the trusted
/// constructor is for buffers the caller itself just sized and filled.
#[derive(Debug)]
pub struct Sum2Buffer {
    inner: Vec<u8>,
}

impl View for Sum2Buffer {
    type V = Seq<u8>;

    closed spec fn view(&self) -> Seq<u8> {
        self.inner@
    }
}

impl Sum2Buffer {
    /// Performs bound checks for the message fields on `bytes` and wraps
    /// them; fails exactly on buffers no valid sum2 message could fill.
    pub fn new(bytes: Vec<u8>) -> (r: Result<Sum2Buffer, DecodeError>)
        ensures
            r is Ok <==> sum2_valid(bytes@),
            r matches Ok(b) ==> b@ == bytes@,
            r matches Err(e) ==> e == sum2_error(bytes@),
    {
        let buffer = Sum2Buffer { inner: bytes };
        match buffer.check_buffer_length() {
            Ok(()) => Ok(buffer),
            Err(e) => Err(e),
        }
    }

    /// Wraps `bytes` without bound checks. Field access demands a buffer
    /// at least as long as the signature prefix: use this only on buffers
    /// just allocated at the exact encoded length.
    pub fn new_unchecked(bytes: Vec<u8>) -> (r: Sum2Buffer)
        ensures
            r@ == bytes@,
    {
        Sum2Buffer { inner: bytes }
    }

    /// Performs the bound checks for the message fields on this buffer:
    /// the signature prefix must be complete, and the bytes after it must
    /// start with a structurally valid mask.
    pub fn check_buffer_length(&self) -> (r: Result<(), DecodeError>)
        ensures
            r is Ok <==> sum2_valid(self@),
            r matches Err(e) ==> e == sum2_error(self@),
    {
        let len = self.inner.len();
        if len < SIGNATURE_LENGTH {
            return Err(DecodeError::BufferLength { actual: len, expected: SIGNATURE_LENGTH });
        }
        match MaskObject::check_at(&self.inner, SIGNATURE_LENGTH) {
            Ok(()) => Ok(()),
            Err(cause) => Err(DecodeError::InvalidMask { cause }),
        }
    }

    /// Gives the wrapped bytes back.
    pub fn into_inner(self) -> (r: Vec<u8>)
        ensures
            r@ == self@,
    {
        self.inner
    }

    /// Copies the signature field out of the buffer.
    pub fn sum_signature(&self) -> (r: Vec<u8>)
        requires
            self@.len() >= SIGNATURE_LENGTH,
        ensures
            r@ == self@.subrange(0, SIGNATURE_LENGTH as int),
    {
        copy_range(&self.inner, 0, SIGNATURE_LENGTH)
    }

    /// Copies the mask field — everything after the signature — out of
    /// the buffer.
    pub fn mask(&self) -> (r: Vec<u8>)
        requires
            self@.len() >= SIGNATURE_LENGTH,
        ensures
            r@ == self@.skip(SIGNATURE_LENGTH as int),
    {
        let r = copy_range(&self.inner, SIGNATURE_LENGTH, self.inner.len());
        proof {
            assert(self@.subrange(SIGNATURE_LENGTH as int, self@.len() as int) =~= self@.skip(
                SIGNATURE_LENGTH as int,
            ));
        }
        r
    }

    /// Overwrites the signature field with the given bytes.
    pub fn sum_signature_mut(&mut self, bytes: &Vec<u8>)
        requires
            old(self)@.len() >= SIGNATURE_LENGTH,
            bytes@.len() == SIGNATURE_LENGTH,
        ensures
            final(self)@ == bytes@ + old(self)@.skip(SIGNATURE_LENGTH as int),
            final(self)@.len() == old(self)@.len(),
    {
        let tail = copy_range(&self.inner, SIGNATURE_LENGTH, self.inner.len());
        let mut rebuilt = copy_bytes(bytes);
        crate::bytes_util::append_bytes(&mut rebuilt, &tail);
        self.inner = rebuilt;
        proof {
            assert(old(self)@.subrange(SIGNATURE_LENGTH as int, old(self)@.len() as int) =~= old(
                self,
            )@.skip(SIGNATURE_LENGTH as int));
        }
    }

    /// Overwrites the mask field — everything after the signature — with
    /// the given bytes, which must fill it exactly.
    pub fn mask_mut(&mut self, bytes: &Vec<u8>)
        requires
            old(self)@.len() >= SIGNATURE_LENGTH,
            bytes@.len() == old(self)@.len() - SIGNATURE_LENGTH,
        ensures
            final(self)@ == old(self)@.take(SIGNATURE_LENGTH as int) + bytes@,
            final(self)@.len() == old(self)@.len(),
    {
        let mut rebuilt = copy_range(&self.inner, 0, SIGNATURE_LENGTH);
        crate::bytes_util::append_bytes(&mut rebuilt, bytes);
        self.inner = rebuilt;
    }
}

/// A high level representation of a sum2 message: the participant's
/// task-selection signature and the mask it computed.
#[derive(Debug)]
pub struct Sum2 {
    /// The signature proving selection for the sum task.
    pub sum_signature: Signature,
    /// The mask computed by the participant.
    pub mask: MaskObject,
}

impl Sum2 {
    /// Both fields are well-formed.
    pub open spec fn wf(self) -> bool {
        self.sum_signature.wf() && self.mask.wf()
    }

    /// This message's wire form: the signature verbatim, then the mask in
    /// its own self-describing format.
    pub open spec fn encoded(self) -> Seq<u8> {
        self.sum_signature@ + mask_wire(self.mask@)
    }

    /// Exact number of bytes `to_bytes` writes.
    pub fn buffer_length(&self) -> (r: usize)
        requires
            self.wf(),
            self.mask@.len() + SIGNATURE_LENGTH + 4 <= usize::MAX,
        ensures
            r == self.encoded().len(),
            r == SIGNATURE_LENGTH + 4 + self.mask@.len(),
    {
        SIGNATURE_LENGTH + self.mask.buffer_length()
    }

    /// Writes this message over `buffer`, which the caller allocated at
    /// exactly `buffer_length` bytes.
    pub fn to_bytes(&self, buffer: &mut Vec<u8>)
        requires
            self.wf(),
            old(buffer)@.len() == self.encoded().len(),
        ensures
            final(buffer)@ == self.encoded(),
    {
        let mut taken: Vec<u8> = Vec::new();
        std::mem::swap(buffer, &mut taken);
        let mut writer = Sum2Buffer::new_unchecked(taken);
        writer.sum_signature_mut(self.sum_signature.as_bytes());
        let mask_bytes = self.mask.to_bytes();
        writer.mask_mut(&mask_bytes);
        let mut written = writer.into_inner();
        std::mem::swap(buffer, &mut written);
        proof {
            assert(final(buffer)@ =~= self.encoded());
        }
    }

    /// Decodes an owned sum2 message from `buffer`: validates the bounds,
    /// then reads the signature and the mask. Fails exactly on buffers
    /// the validating constructor rejects.
    pub fn from_bytes(buffer: &Vec<u8>) -> (r: Result<Sum2, DecodeError>)
        ensures
            r is Ok <==> sum2_valid(buffer@),
            r matches Ok(m) ==> m.wf() && m.sum_signature@ == sum2_signature(buffer@) && m.mask@
                == sum2_mask(buffer@),
            r matches Err(e) ==> e == sum2_error(buffer@),
    {
        let reader = match Sum2Buffer::new(copy_bytes(buffer)) {
            Ok(reader) => reader,
            Err(e) => {
                return Err(e);
            },
        };
        let sig_bytes = reader.sum_signature();
        let sum_signature = match Signature::from_slice(&sig_bytes) {
            Some(s) => s,
            None => {
                return Err(DecodeError::InvalidSumSignature);
            },
        };
        let mask = match MaskObject::from_bytes_at(&buffer, SIGNATURE_LENGTH) {
            Ok(m) => m,
            Err(cause) => {
                return Err(DecodeError::InvalidMask { cause });
            },
        };
        Ok(Sum2 { sum_signature, mask })
    }
}

/// Law: the wire form of any well-formed sum2 message is valid, and
/// decoding it yields the signature and mask it was built from — decode
/// inverts encode.
pub proof fn lemma_sum2_round_trip(x: Sum2)
    requires
        x.wf(),
    ensures
        sum2_valid(x.encoded()),
        sum2_signature(x.encoded()) == x.sum_signature@,
        sum2_mask(x.encoded()) == x.mask@,
        x.encoded().len() == SIGNATURE_LENGTH + 4 + x.mask@.len(),
{
    let e = x.encoded();
    crate::mask::lemma_mask_wire_round_trip(x.mask@);
    assert(e.skip(SIGNATURE_LENGTH as int) =~= mask_wire(x.mask@));
    assert(e.subrange(0, SIGNATURE_LENGTH as int) =~= x.sum_signature@);
}

impl PartialEq for Sum2 {
    fn eq(&self, other: &Sum2) -> (r: bool) {
        bytes_eq(self.sum_signature.as_bytes(), other.sum_signature.as_bytes())
            && bytes_eq(self.mask.data(), other.mask.data())
    }
}

impl vstd::std_specs::cmp::PartialEqSpecImpl for Sum2 {
    open spec fn obeys_eq_spec() -> bool {
        true
    }

    open spec fn eq_spec(&self, other: &Sum2) -> bool {
        self.sum_signature@ == other.sum_signature@ && self.mask@ == other.mask@
    }
}

} // verus!
