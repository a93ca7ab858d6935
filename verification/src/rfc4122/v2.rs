//! DCE security identifiers: a local identity number, the low bytes of the
//! time, and the node.

use vstd::prelude::*;
use crate::layout::{Layout, Node, TimeStamp, Variant, Version};
use crate::uuid::UUID;

verus! {

/// The kind of local identity that a DCE security identifier carries.
#[derive(Debug, Copy, Clone)]
pub enum Domain {
    /// The identity is that of a person: a POSIX user id.
    PERSON,
    /// The identity is that of a group: a POSIX group id.
    GROUP,
}

impl Domain {
    /// The number that stands for this domain on the wire.
    pub open spec fn spec_code(self) -> u8 {
        match self {
            Domain::PERSON => 0,
            Domain::GROUP => 1,
        }
    }

    /// The number that stands for this domain on the wire.
    #[verifier::when_used_as_spec(spec_code)]
    pub fn code(self) -> (r: u8)
        ensures
            r == self.spec_code(),
    {
        match self {
            Domain::PERSON => 0,
            Domain::GROUP => 1,
        }
    }

    /// The identity that belongs to this domain: the user id for a person,
    /// the group id for a group.
    pub fn local_id(self, uid: u32, gid: u32) -> (r: u32)
        ensures
            r == (match self {
                Domain::PERSON => uid,
                Domain::GROUP => gid,
            }),
    {
        match self {
            Domain::PERSON => uid,
            Domain::GROUP => gid,
        }
    }
}

impl UUID {
    /// The fields of the DCE security identifier for these inputs: the
    /// identity number whole, the low three bytes of the time, the version
    /// nibble, the low nibble of the clock sequence under the RFC4122 tag,
    /// the domain's number, and the node.
    pub open spec fn spec_v2(
        time: TimeStamp,
        node: Node,
        domain: Domain,
        id: u32,
        clock_seq: u16,
    ) -> Layout {
        Layout {
            field_low: id,
            field_mid: (time.0 % 0x1_0000) as u16,
            field_high_and_version: (0x2000 + time.0 / 0x1_0000 % 0x100) as u16,
            clock_seq_high_and_reserved: (0x80 + clock_seq % 0x10) as u8,
            clock_seq_low: domain.spec_code(),
            node,
        }
    }

    /// Creates the layout of a DCE security `UUID` from the time, the node,
    /// the domain, the identity number read for that domain and the current
    /// clock sequence value.
    pub fn v2(time: TimeStamp, node: Node, domain: Domain, id: u32, clock_seq: u16) -> (r: Layout)
        ensures
            r == Self::spec_v2(time, node, domain, id, clock_seq),
            r.spec_version() == Ok::<Version, &'static str>(Version::DCE),
            r.spec_variant() == Ok::<Variant, &'static str>(Variant::RFC4122),
    {
        let ticks: u64 = time.0;
        proof {
            assert({
                &&& (ticks & 0xffff) as u16 == ticks % 0x1_0000
                &&& ((ticks >> 16) & 0xff) as u16 == ticks / 0x1_0000 % 0x100
            }) by (bit_vector);
            assert((clock_seq & 0xff) as u8 % 0x10 == clock_seq % 0x10) by (bit_vector);
        }
        let fields = Layout {
            field_low: id,
            field_mid: (ticks & 0xffff) as u16,
            field_high_and_version: ((ticks >> 16) & 0xff) as u16,
            clock_seq_high_and_reserved: (clock_seq & 0xff) as u8,
            clock_seq_low: domain.code(),
            node,
        };
        fields.with_version(Version::DCE).with_rfc4122()
    }
}

} // verus!
