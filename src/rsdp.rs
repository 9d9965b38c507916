//! The ACPI v1 Root System Descriptor Pointer, viewed as its 20 raw bytes.
use vstd::prelude::*;
use crate::layout::{byte_sum, lemma_byte_sum_update, u32_le, u32_from_le_bytes};

verus! {

/// Byte count of the RSDP v1 structure; its fields leave no padding.
pub const RSDP_SIZE: usize = 20;

/// The eight signature bytes, `"RSD PTR "`.
pub const RSDP_SIGNATURE: [u8; 8] = [0x52, 0x53, 0x44, 0x20, 0x50, 0x54, 0x52, 0x20];

/// The signature as a sequence, for specifications.
pub open spec fn rsdp_signature() -> Seq<u8> {
    seq![0x52u8, 0x53, 0x44, 0x20, 0x50, 0x54, 0x52, 0x20]
}

/// The Root System Descriptor Pointer (ACPI v1 layout).
///
/// Byte offsets: signature 0..8, checksum 8, OEM id 9..15, revision 15,
/// RSDT physical address 16..20 (little-endian).
#[derive(Debug, Clone, Copy, PartialEq, Eq)]
pub struct RSDPv1 {
    pub bytes: [u8; 20],
}

impl View for RSDPv1 {
    type V = Seq<u8>;

    open spec fn view(&self) -> Seq<u8> {
        self.bytes@
    }
}

impl RSDPv1 {
    /// The signature field, bytes 0..8.
    pub open spec fn signature(&self) -> Seq<u8> {
        self@.subrange(0, 8)
    }

    /// The revision field, byte 15.
    pub open spec fn revision(&self) -> u8 {
        self@[15]
    }

    /// The RSDT physical address, bytes 16..20 read little-endian.
    pub open spec fn address(&self) -> int {
        u32_le(self@.subrange(16, 20))
    }

    /// Signature, revision and checksum are all as ACPI v1 requires.
    pub open spec fn valid(&self) -> bool {
        &&& self.revision() < 2
        &&& self.signature() == rsdp_signature()
        &&& byte_sum(self@) % 256 == 0
    }

    /// Interprets a region of exactly `RSDP_SIZE` bytes; any other length gives `None`.
    pub fn from_bytes(region: &[u8]) -> (r: Option<RSDPv1>)
        ensures
            r is Some <==> region@.len() == RSDP_SIZE,
            r matches Some(p) ==> p@ == region@,
    {
        if region.len() == RSDP_SIZE {
            let p = RSDPv1::from_bytes_at(region, 0);
            assert(region@.subrange(0, RSDP_SIZE as int) =~= region@);
            Some(p)
        } else {
            None
        }
    }

    /// Reads the structure from the `RSDP_SIZE` bytes that start at `at`.
    pub(crate) fn from_bytes_at(region: &[u8], at: usize) -> (r: RSDPv1)
        requires
            at + RSDP_SIZE <= region.len(),
        ensures
            r@ == region@.subrange(at as int, at + RSDP_SIZE),
    {
        let mut bytes: [u8; 20] = [0u8; 20];
        let mut i: usize = 0;
        while i < RSDP_SIZE
            invariant
                at + RSDP_SIZE <= region.len(),
                i <= RSDP_SIZE,
                bytes@.len() == RSDP_SIZE,
                forall|j: int| 0 <= j < i ==> bytes@[j] == region@[at + j],
            decreases RSDP_SIZE - i,
        {
            bytes[i] = region[at + i];
            i = i + 1;
        }
        let r = RSDPv1 { bytes };
        assert(r@ =~= region@.subrange(at as int, at + RSDP_SIZE));
        r
    }

    /// Returns the **physical address** of the Root System Descriptor Table,
    /// whether or not the structure is valid.
    pub fn rsdt_phys_addr(&self) -> (r: u32)
        ensures
            r as int == self.address(),
    {
        u32_from_le_bytes(self.bytes[16], self.bytes[17], self.bytes[18], self.bytes[19])
    }

    /// Decides `valid`: revision below 2, the `"RSD PTR "` signature, and a byte
    /// sum of zero modulo 256.
    pub fn is_valid(&self) -> (r: bool)
        ensures
            r == self.valid(),
            self.revision() >= 2 ==> !r,
            self.signature() != rsdp_signature() ==> !r,
    {
        self.bytes[15] < 2 && self.has_signature() && self.checksum() % 256 == 0
    }

    fn has_signature(&self) -> (r: bool)
        ensures
            r == (self.signature() == rsdp_signature()),
    {
        assert(RSDP_SIGNATURE@ =~= rsdp_signature());
        let mut i: usize = 0;
        while i < 8
            invariant
                i <= 8,
                self@.len() == RSDP_SIZE,
                RSDP_SIGNATURE@ == rsdp_signature(),
                forall|j: int| 0 <= j < i ==> self@[j] == rsdp_signature()[j],
            decreases 8 - i,
        {
            if self.bytes[i] != RSDP_SIGNATURE[i] {
                assert(self.signature()[i as int] != rsdp_signature()[i as int]);
                return false;
            }
            i = i + 1;
        }
        assert(self.signature() =~= rsdp_signature());
        true
    }

    /// Sums up every individual byte in the structure.
    fn checksum(&self) -> (r: usize)
        ensures
            r == byte_sum(self@),
    {
        let mut sum: usize = 0;
        let mut i: usize = 0;
        while i < RSDP_SIZE
            invariant
                i <= RSDP_SIZE,
                self@.len() == RSDP_SIZE,
                sum == byte_sum(self@.subrange(0, i as int)),
                sum <= 255 * i,
            decreases RSDP_SIZE - i,
        {
            assert(self@.subrange(0, i + 1).drop_last() =~= self@.subrange(0, i as int));
            sum = sum + self.bytes[i] as usize;
            i = i + 1;
        }
        assert(self@.subrange(0, RSDP_SIZE as int) =~= self@);
        sum
    }
}

/// Changing any single byte of a valid structure, the checksum byte included,
/// leaves it invalid: the byte sum moves by less than 256 and is no longer 0 modulo 256.
pub proof fn lemma_single_byte_change_invalidates(p: RSDPv1, q: RSDPv1, i: int, v: u8)
    requires
        p.valid(),
        0 <= i < RSDP_SIZE,
        v != p@[i],
        q@ == p@.update(i, v),
    ensures
        !q.valid(),
{
    lemma_byte_sum_update(p@, i, v);
}

/// A signature other than `"RSD PTR "` makes the structure invalid, whatever
/// its checksum and revision.
pub proof fn lemma_wrong_signature_invalidates(p: RSDPv1)
    requires
        p.signature() != rsdp_signature(),
    ensures
        !p.valid(),
{
}

/// A revision of 2 or more makes the structure invalid, whatever its
/// signature and checksum.
pub proof fn lemma_revision_two_or_more_invalidates(p: RSDPv1)
    requires
        p.revision() >= 2,
    ensures
        !p.valid(),
{
}

/// The verdict and the address are functions of the bytes alone: two views of
/// equal bytes agree on both, so repeated calls on unchanged bytes agree.
pub proof fn lemma_verdict_and_address_depend_on_bytes_only(p: RSDPv1, q: RSDPv1)
    requires
        p@ == q@,
    ensures
        p.valid() == q.valid(),
        p.address() == q.address(),
{
}

} // verus!
