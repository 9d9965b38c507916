//! Decoding and validation of the ACPI v1 Root System Descriptor Pointer
//! carried in a bootloader's "ACPI old RSDP" boot-information tag.
pub mod layout;
pub mod rsdp;
pub mod tag;

pub use rsdp::{RSDPv1, RSDP_SIGNATURE, RSDP_SIZE};
pub use tag::{AcpiOldTag, TAG_HEADER_SIZE};
