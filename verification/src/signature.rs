//! The fixed-length task-selection signature carried by sum2 messages.

use vstd::prelude::*;
use crate::bytes_util::{bytes_eq, copy_bytes};

verus! {

/// Byte length of a task-selection signature.
pub const SIGNATURE_LENGTH: usize = 64;

/// An opaque, fixed-length byte sequence proving that a participant was
/// selected for the sum task. Produced by the crypto layer, carried
/// read-only here; equality is byte-wise.
#[derive(Debug)]
pub struct Signature {
    bytes: Vec<u8>,
}

impl View for Signature {
    type V = Seq<u8>;

    closed spec fn view(&self) -> Seq<u8> {
        self.bytes@
    }
}

impl Signature {
    /// A signature is exactly `SIGNATURE_LENGTH` bytes.
    pub open spec fn wf(self) -> bool {
        self@.len() == SIGNATURE_LENGTH
    }

    /// Builds a signature from a byte sequence of exactly the right length.
    pub fn from_slice(bytes: &Vec<u8>) -> (r: Option<Signature>)
        ensures
            r is Some <==> bytes@.len() == SIGNATURE_LENGTH,
            r matches Some(s) ==> s.wf() && s@ == bytes@,
    {
        if bytes.len() == SIGNATURE_LENGTH {
            Some(Signature { bytes: copy_bytes(bytes) })
        } else {
            None
        }
    }

    /// The signature's bytes.
    pub fn as_bytes(&self) -> (r: &Vec<u8>)
        ensures
            r@ == self@,
    {
        &self.bytes
    }
}

impl PartialEq for Signature {
    fn eq(&self, other: &Signature) -> (r: bool) {
        bytes_eq(&self.bytes, &other.bytes)
    }
}

impl vstd::std_specs::cmp::PartialEqSpecImpl for Signature {
    open spec fn obeys_eq_spec() -> bool {
        true
    }

    open spec fn eq_spec(&self, other: &Signature) -> bool {
        self@ == other@
    }
}

} // verus!
