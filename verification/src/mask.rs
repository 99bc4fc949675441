//! The masked aggregate carried by sum2 messages, together with its
//! self-describing container format.
//!
//! On the wire a mask is a 32-bit big-endian payload length followed by the
//! payload bytes. The aggregation encoding inside the payload is out of
//! scope here: the payload is carried as opaque bytes. A region may hold
//! trailing bytes after the declared payload; they are ignored.

use vstd::prelude::*;
use crate::bytes_util::{append_bytes, be32_of, bytes_eq, copy_range, decode_be32, encode_be32,
    lemma_be32_round_trip, u32_of_be};
use crate::error::MaskDecodeError;

verus! {

/// Largest payload length the 32-bit length field can describe.
pub const MAX_MASK_PAYLOAD: usize = 0xFFFF_FFFF;

/// An opaque, self-describing serializable aggregate: the mask a sum
/// participant computed. Equality is byte-wise on the payload.
#[derive(Debug)]
pub struct MaskObject {
    data: Vec<u8>,
}

/// The wire form of a mask payload: big-endian length, then the payload.
pub open spec fn mask_wire(data: Seq<u8>) -> Seq<u8>
    recommends
        data.len() <= MAX_MASK_PAYLOAD,
{
    be32_of(data.len() as u32) + data
}

/// The payload length a region declares in its leading length field.
pub open spec fn mask_declared(region: Seq<u8>) -> int
    recommends
        region.len() >= 4,
{
    u32_of_be(region.subrange(0, 4)) as int
}

/// Whether a region starts with a structurally valid mask: a complete
/// length field whose declared payload fits in the bytes that follow.
pub open spec fn mask_region_valid(region: Seq<u8>) -> bool {
    region.len() >= 4 && mask_declared(region) <= region.len() - 4
}

/// The payload bytes a valid region carries.
pub open spec fn mask_payload(region: Seq<u8>) -> Seq<u8>
    recommends
        mask_region_valid(region),
{
    region.subrange(4, 4 + mask_declared(region))
}

/// The error a region yields, for the exact bounds the decoder checks.
pub open spec fn mask_region_error(region: Seq<u8>) -> MaskDecodeError
    recommends
        !mask_region_valid(region),
{
    if region.len() < 4 {
        MaskDecodeError::BufferLength { actual: region.len() as usize, expected: 4 }
    } else {
        MaskDecodeError::DataLength {
            actual: (region.len() - 4) as usize,
            expected: u32_of_be(region.subrange(0, 4)) as usize,
        }
    }
}

/// The wire form of a mask starts with a valid region that reads back to
/// the same payload, and no trailing bytes.
pub proof fn lemma_mask_wire_round_trip(data: Seq<u8>)
    requires
        data.len() <= MAX_MASK_PAYLOAD,
    ensures
        mask_wire(data).len() == 4 + data.len(),
        mask_region_valid(mask_wire(data)),
        mask_payload(mask_wire(data)) == data,
{
    let w = mask_wire(data);
    lemma_be32_round_trip(data.len() as u32);
    assert(w.subrange(0, 4) =~= be32_of(data.len() as u32));
    assert(mask_declared(w) == data.len());
    assert(w.subrange(4, 4 + data.len() as int) =~= data);
}

impl View for MaskObject {
    type V = Seq<u8>;

    closed spec fn view(&self) -> Seq<u8> {
        self.data@
    }
}

impl MaskObject {
    /// The payload fits the 32-bit length field.
    pub open spec fn wf(self) -> bool {
        self@.len() <= MAX_MASK_PAYLOAD
    }

    /// This mask's wire form.
    pub open spec fn encoded(self) -> Seq<u8> {
        mask_wire(self@)
    }

    /// Builds a mask around the given payload bytes; rejects a payload too
    /// long for the length field.
    pub fn new(data: Vec<u8>) -> (r: Option<MaskObject>)
        ensures
            r is Some <==> data@.len() <= MAX_MASK_PAYLOAD,
            r matches Some(m) ==> m.wf() && m@ == data@,
    {
        if data.len() <= MAX_MASK_PAYLOAD {
            Some(MaskObject { data })
        } else {
            None
        }
    }

    /// The opaque payload bytes.
    pub fn data(&self) -> (r: &Vec<u8>)
        ensures
            r@ == self@,
    {
        &self.data
    }

    /// Exact number of bytes this mask's wire form occupies.
    pub fn buffer_length(&self) -> (r: usize)
        requires
            self.wf(),
            self@.len() + 4 <= usize::MAX,
        ensures
            r == self.encoded().len(),
            r == 4 + self@.len(),
    {
        4 + self.data.len()
    }

    /// Serializes this mask into its wire form.
    pub fn to_bytes(&self) -> (r: Vec<u8>)
        requires
            self.wf(),
        ensures
            r@ == self.encoded(),
    {
        let mut out: Vec<u8> = Vec::new();
        encode_be32(self.data.len() as u32, &mut out);
        append_bytes(&mut out, &self.data);
        out
    }

    /// Checks that `buffer[offset..]` starts with a structurally valid
    /// mask, without building one.
    pub fn check_at(buffer: &Vec<u8>, offset: usize) -> (r: Result<(), MaskDecodeError>)
        requires
            offset <= buffer@.len(),
        ensures
            r is Ok <==> mask_region_valid(buffer@.skip(offset as int)),
            r matches Err(e) ==> e == mask_region_error(buffer@.skip(offset as int)),
    {
        let ghost region = buffer@.skip(offset as int);
        let avail = buffer.len() - offset;
        if avail < 4 {
            return Err(MaskDecodeError::BufferLength { actual: avail, expected: 4 });
        }
        let declared = decode_be32(buffer, offset);
        proof {
            assert(buffer@.subrange(offset as int, offset as int + 4) =~= region.subrange(0, 4));
        }
        let declared_len = declared as usize;
        if avail - 4 < declared_len {
            return Err(MaskDecodeError::DataLength { actual: avail - 4, expected: declared_len });
        }
        Ok(())
    }

    /// Decodes the mask that `buffer[offset..]` carries, reading exactly
    /// the declared payload and ignoring trailing bytes.
    pub fn from_bytes_at(buffer: &Vec<u8>, offset: usize) -> (r: Result<MaskObject, MaskDecodeError>)
        requires
            offset <= buffer@.len(),
        ensures
            r is Ok <==> mask_region_valid(buffer@.skip(offset as int)),
            r matches Ok(m) ==> m.wf() && m@ == mask_payload(buffer@.skip(offset as int)),
            r matches Err(e) ==> e == mask_region_error(buffer@.skip(offset as int)),
    {
        let ghost region = buffer@.skip(offset as int);
        match MaskObject::check_at(buffer, offset) {
            Err(e) => Err(e),
            Ok(()) => {
                let blen = buffer.len();
                let declared = decode_be32(buffer, offset) as usize;
                proof {
                    assert(buffer@.subrange(offset as int, offset as int + 4) =~= region.subrange(
                        0,
                        4,
                    ));
                    assert(mask_declared(region) <= region.len() - 4);
                    assert(offset + 4 + declared <= blen);
                }
                let data = copy_range(buffer, offset + 4, offset + 4 + declared);
                proof {
                    assert(buffer@.subrange(
                        offset as int + 4,
                        offset as int + 4 + mask_declared(region),
                    ) =~= mask_payload(region));
                }
                Ok(MaskObject { data })
            },
        }
    }

    /// Decodes a mask that fills `buffer` from its start.
    pub fn from_bytes(buffer: &Vec<u8>) -> (r: Result<MaskObject, MaskDecodeError>)
        ensures
            r is Ok <==> mask_region_valid(buffer@),
            r matches Ok(m) ==> m.wf() && m@ == mask_payload(buffer@),
            r matches Err(e) ==> e == mask_region_error(buffer@),
    {
        let r = MaskObject::from_bytes_at(buffer, 0);
        proof {
            assert(buffer@.skip(0) =~= buffer@);
        }
        r
    }
}

impl PartialEq for MaskObject {
    fn eq(&self, other: &MaskObject) -> (r: bool) {
        bytes_eq(&self.data, &other.data)
    }
}

impl vstd::std_specs::cmp::PartialEqSpecImpl for MaskObject {
    open spec fn obeys_eq_spec() -> bool {
        true
    }

    open spec fn eq_spec(&self, other: &MaskObject) -> bool {
        self@ == other@
    }
}

} // verus!
