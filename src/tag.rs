//! The bootloader's "ACPI old RSDP" tag: a generic record header followed,
//! with no padding, by one RSDP v1 structure.
use vstd::prelude::*;
use crate::layout::{byte_sum, u32_le, u32_from_le_bytes};
use crate::rsdp::{rsdp_signature, RSDPv1, RSDP_SIZE};

verus! {

/// Byte count of the generic record header: a `u32` kind and a `u32` total size.
pub const TAG_HEADER_SIZE: usize = 8;

/// The tag as laid out in memory: header fields, then the embedded RSDP.
#[derive(Debug, Clone, Copy, PartialEq, Eq)]
pub struct AcpiOldTag {
    pub typ: u32,
    pub size: u32,
    pub rsdp: RSDPv1,
}

impl AcpiOldTag {
    /// The declared total size is exactly one header plus one RSDP v1.
    pub open spec fn size_matches(&self) -> bool {
        self.size as int == TAG_HEADER_SIZE + RSDP_SIZE
    }

    /// `self` is what the first `TAG_HEADER_SIZE + RSDP_SIZE` bytes of `region` encode.
    pub open spec fn decoded_from(&self, region: Seq<u8>) -> bool {
        &&& region.len() >= TAG_HEADER_SIZE + RSDP_SIZE
        &&& self.typ as int == u32_le(region.subrange(0, 4))
        &&& self.size as int == u32_le(region.subrange(4, 8))
        &&& self.rsdp@ == region.subrange(8, 28)
    }

    /// Interprets the start of `region`; `None` when it is too short to hold
    /// the header and the RSDP.
    pub fn from_bytes(region: &[u8]) -> (r: Option<AcpiOldTag>)
        ensures
            r is Some <==> region@.len() >= TAG_HEADER_SIZE + RSDP_SIZE,
            r matches Some(t) ==> t.decoded_from(region@),
    {
        if region.len() < TAG_HEADER_SIZE + RSDP_SIZE {
            return None;
        }
        let typ = u32_from_le_bytes(region[0], region[1], region[2], region[3]);
        let size = u32_from_le_bytes(region[4], region[5], region[6], region[7]);
        let rsdp = RSDPv1::from_bytes_at(region, TAG_HEADER_SIZE);
        assert(region@.subrange(0, 4) =~= seq![region@[0], region@[1], region@[2], region@[3]]);
        assert(region@.subrange(4, 8) =~= seq![region@[4], region@[5], region@[6], region@[7]]);
        Some(AcpiOldTag { typ, size, rsdp })
    }

    /// Returns the RSDPv1, or `None` if the declared size does not match the
    /// layout or the embedded structure is not valid.
    pub fn get_rsdp(&self) -> (r: Option<&RSDPv1>)
        ensures
            r is Some <==> self.size_matches() && self.rsdp.valid(),
            r matches Some(p) ==> *p == self.rsdp,
            (self.size as int) < RSDP_SIZE ==> r is None,
            !self.size_matches() ==> r is None,
    {
        // the declared size must be exactly a header plus one RSDP
        match (self.size as usize).checked_sub(RSDP_SIZE) {
            Some(extra) if extra == TAG_HEADER_SIZE => {},
            _ => return None,
        }
        if self.rsdp.is_valid() {
            Some(&self.rsdp)
        } else {
            None
        }
    }
}

/// A region whose declared size is one header plus one RSDP, whose RSDP bytes
/// carry the `"RSD PTR "` signature and revision 0 and sum to 0 modulo 256,
/// decodes to a tag whose RSDP is found, and whose address is the
/// little-endian value of the four bytes at offset 24.
pub proof fn lemma_well_formed_region_yields_address(region: Seq<u8>, tag: AcpiOldTag)
    requires
        tag.decoded_from(region),
        u32_le(region.subrange(4, 8)) == TAG_HEADER_SIZE + RSDP_SIZE,
        region.subrange(8, 16) == rsdp_signature(),
        region[23] == 0,
        byte_sum(region.subrange(8, 28)) % 256 == 0,
    ensures
        tag.size_matches(),
        tag.rsdp.valid(),
        tag.rsdp.address() == u32_le(region.subrange(24, 28)),
{
    assert(tag.rsdp.signature() =~= region.subrange(8, 16));
    assert(tag.rsdp@.subrange(16, 20) =~= region.subrange(24, 28));
}

} // verus!
