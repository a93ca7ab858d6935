//! The identifier itself: sixteen opaque bytes.

use vstd::prelude::*;

verus! {

/// The `UUID` format is 16 octets.
pub type Bytes = [u8; 16];

/// Is a 128-bit number used to identify information in computer systems.
#[derive(Debug, PartialEq, Eq, Clone, Copy)]
pub struct UUID(pub Bytes);

impl UUID {
    /// UUID namespace for domain name system (DNS).
    pub const NAMESPACE_DNS: Bytes = [
        0x6b, 0xa7, 0xb8, 0x10, 0x9d, 0xad, 0x11, 0xd1, 0x80, 0xb4, 0x00, 0xc0, 0x4f, 0xd4, 0x30,
        0xc8,
    ];

    /// UUID namespace for ISO object identifiers (OIDs).
    pub const NAMESPACE_OID: Bytes = [
        0x6b, 0xa7, 0xb8, 0x12, 0x9d, 0xad, 0x11, 0xd1, 0x80, 0xb4, 0x00, 0xc0, 0x4f, 0xd4, 0x30,
        0xc8,
    ];

    /// UUID namespace for uniform resource locators (URLs).
    pub const NAMESPACE_URL: Bytes = [
        0x6b, 0xa7, 0xb8, 0x11, 0x9d, 0xad, 0x11, 0xd1, 0x80, 0xb4, 0x00, 0xc0, 0x4f, 0xd4, 0x30,
        0xc8,
    ];

    /// UUID namespace for X.500 distinguished names (DNs).
    pub const NAMESPACE_X500: Bytes = [
        0x6b, 0xa7, 0xb8, 0x14, 0x9d, 0xad, 0x11, 0xd1, 0x80, 0xb4, 0x00, 0xc0, 0x4f, 0xd4, 0x30,
        0xc8,
    ];

    /// Returns the memory representation of `UUID`.
    pub fn as_bytes(&self) -> (r: [u8; 16])
        ensures
            r == self.0,
    {
        self.0
    }
}

impl Default for UUID {
    /// The nil identifier: sixteen zero bytes.
    fn default() -> (r: UUID)
        ensures
            forall|i: int| 0 <= i < 16 ==> r.0[i] == 0,
    {
        UUID([0; 16])
    }
}

} // verus!
