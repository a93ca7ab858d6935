//! The field view of an identifier and the codec between it and the
//! sixteen wire bytes.

use vstd::prelude::*;
use crate::uuid::{Bytes, UUID};

verus! {

/// The six bytes of an IEEE-802 network address, in wire order.
#[derive(Debug, PartialEq, Eq, Clone, Copy)]
pub struct Node(pub [u8; 6]);

impl Node {
    /// Wraps six address bytes.
    pub fn new(bytes: [u8; 6]) -> (r: Node)
        ensures
            r.0 == bytes,
    {
        Node(bytes)
    }

    /// Returns the six address bytes.
    pub fn bytes(&self) -> (r: [u8; 6])
        ensures
            r == self.0,
    {
        self.0
    }
}

/// Is a 60-bit value. Represented by Coordinated Universal Time (UTC) as a
/// count of 100-nanosecond intervals since 1582-10-15.
///
/// A count that needs more than sixty bits is truncated, never rejected:
/// `from_unix` keeps the low sixty bits, and a generator reads the low bits
/// that it packs whatever the bits above them hold.
#[derive(Debug, Clone, Copy)]
pub struct TimeStamp(pub u64);

/// The count of 100-nanosecond intervals from 1582-10-15 to 1970-01-01.
pub const GREGORIAN_OFFSET: u64 = 0x01b2_1dd2_1381_4000;

impl TimeStamp {
    /// The count that stands for a moment given in Unix time. A count that
    /// needs more than sixty bits is cut to its low sixty bits.
    pub open spec fn spec_from_unix(secs: u64, nanos: u32) -> TimeStamp {
        TimeStamp(
            ((secs * 10_000_000 + nanos / 100 + GREGORIAN_OFFSET) % 0x1000_0000_0000_0000) as u64,
        )
    }

    /// Returns the `TimeStamp` of the moment `secs` seconds and `nanos`
    /// nanoseconds after 1970-01-01, cut to sixty bits.
    pub fn from_unix(secs: u64, nanos: u32) -> (r: TimeStamp)
        ensures
            r == Self::spec_from_unix(secs, nanos),
            r.0 < 0x1000_0000_0000_0000,
    {
        let since_unix: u128 = (secs as u128) * 10_000_000 + ((nanos / 100) as u128);
        let ticks: u128 = since_unix + (GREGORIAN_OFFSET as u128);
        proof {
            assert((ticks & 0x0fff_ffff_ffff_ffff) as u64 == ticks % 0x1000_0000_0000_0000)
                by (bit_vector);
        }
        TimeStamp((ticks & 0x0fff_ffff_ffff_ffff) as u64)
    }
}

/// Represents the algorithm use for building the `Layout`, located in
/// the most significant 4 bits of `TimeStamp`.
#[derive(Debug, Eq, PartialEq, Clone, Copy)]
pub enum Version {
    /// The time-based version specified in `rfc4122` document.
    TIME,
    /// DCE-security version, with embedded POSIX UIDs.
    DCE,
    /// The name-based version specified in `rfc4122` document that uses MD5 hashing.
    MD5,
    /// The randomly or pseudo-randomly generated version specified in `rfc4122` document.
    RAND,
    /// The name-based version specified in `rfc4122`document that uses SHA1 hashing.
    SHA1,
}

impl Version {
    /// The number that stands for this version in the version nibble.
    pub open spec fn spec_code(self) -> u8 {
        match self {
            Version::TIME => 1,
            Version::DCE => 2,
            Version::MD5 => 3,
            Version::RAND => 4,
            Version::SHA1 => 5,
        }
    }

    /// The number that stands for this version in the version nibble.
    #[verifier::when_used_as_spec(spec_code)]
    pub fn code(self) -> (r: u8)
        ensures
            r == self.spec_code(),
            1 <= r <= 5,
    {
        match self {
            Version::TIME => 1,
            Version::DCE => 2,
            Version::MD5 => 3,
            Version::RAND => 4,
            Version::SHA1 => 5,
        }
    }

    /// The display name of this version.
    pub open spec fn spec_name(self) -> &'static str {
        match self {
            Version::TIME => "TIME",
            Version::DCE => "DCE",
            Version::MD5 => "MD5",
            Version::RAND => "RAND",
            Version::SHA1 => "SHA1",
        }
    }

    /// The display name of this version, as an owned string.
    pub fn to_string(&self) -> (r: String)
        ensures
            r@ == self.spec_name()@,
    {
        match self {
            Version::TIME => "TIME".to_owned(),
            Version::DCE => "DCE".to_owned(),
            Version::MD5 => "MD5".to_owned(),
            Version::RAND => "RAND".to_owned(),
            Version::SHA1 => "SHA1".to_owned(),
        }
    }
}

/// Is a type field determines the layout of `UUID`.
#[derive(Debug, Eq, PartialEq, Clone, Copy)]
pub enum Variant {
    /// Reserved, NCS backward compatibility.
    NCS,
    /// The variant specified in `rfc4122` document.
    RFC4122,
    /// Reserved, Microsoft Corporation backward compatibility.
    MS,
    /// Reserved for future definition.
    FUT,
}

impl Variant {
    /// The display name of this variant.
    pub open spec fn spec_name(self) -> &'static str {
        match self {
            Variant::NCS => "NCS",
            Variant::RFC4122 => "RFC",
            Variant::MS => "MS",
            Variant::FUT => "FUT",
        }
    }

    /// The display name of this variant, as an owned string.
    pub fn to_string(&self) -> (r: String)
        ensures
            r@ == self.spec_name()@,
    {
        match self {
            Variant::NCS => "NCS".to_owned(),
            Variant::RFC4122 => "RFC".to_owned(),
            Variant::MS => "MS".to_owned(),
            Variant::FUT => "FUT".to_owned(),
        }
    }
}

/// The simplified version of `UUID` in terms of fields that are integral numbers of octets.
#[derive(Debug, PartialEq, Eq, Clone, Copy)]
pub struct Layout {
    /// The low field of the TimeStamp.
    pub field_low: u32,
    /// The mid field of the TimeStamp.
    pub field_mid: u16,
    /// The high field of the TimeStamp multiplexed with the version number.
    pub field_high_and_version: u16,
    /// The high field of the ClockSeq multiplexed with the variant.
    pub clock_seq_high_and_reserved: u8,
    /// The low field of the ClockSeq.
    pub clock_seq_low: u8,
    /// IEEE-802 network address.
    pub node: Node,
}

impl Layout {
    /// The fields that sixteen wire bytes stand for: the three time fields
    /// are big-endian on the wire, the other bytes are taken as they are.
    pub open spec fn spec_from_bytes(b: Bytes) -> Layout {
        Layout {
            field_low: (b[0] * 0x100_0000 + b[1] * 0x1_0000 + b[2] * 0x100 + b[3]) as u32,
            field_mid: (b[4] * 0x100 + b[5]) as u16,
            field_high_and_version: (b[6] * 0x100 + b[7]) as u16,
            clock_seq_high_and_reserved: b[8],
            clock_seq_low: b[9],
            node: Node([b[10], b[11], b[12], b[13], b[14], b[15]]),
        }
    }

    /// The sixteen wire bytes of these fields.
    pub open spec fn spec_generate(self) -> UUID {
        UUID(
            [
                (self.field_low / 0x100_0000) as u8,
                (self.field_low / 0x1_0000 % 0x100) as u8,
                (self.field_low / 0x100 % 0x100) as u8,
                (self.field_low % 0x100) as u8,
                (self.field_mid / 0x100) as u8,
                (self.field_mid % 0x100) as u8,
                (self.field_high_and_version / 0x100) as u8,
                (self.field_high_and_version % 0x100) as u8,
                self.clock_seq_high_and_reserved,
                self.clock_seq_low,
                self.node.0[0],
                self.node.0[1],
                self.node.0[2],
                self.node.0[3],
                self.node.0[4],
                self.node.0[5],
            ],
        )
    }

    /// The version that the top four bits of `field_high_and_version` name.
    pub open spec fn spec_version(self) -> Result<Version, &'static str> {
        let code = self.field_high_and_version / 0x1000;
        if code == 1 {
            Ok(Version::TIME)
        } else if code == 2 {
            Ok(Version::DCE)
        } else if code == 3 {
            Ok(Version::MD5)
        } else if code == 4 {
            Ok(Version::RAND)
        } else if code == 5 {
            Ok(Version::SHA1)
        } else {
            Err("Invalid version")
        }
    }

    /// The variant that the leading bits of `clock_seq_high_and_reserved`
    /// name. The tag is a prefix code: `0xxx` is NCS, `10xx` is RFC4122,
    /// `110x` is MS and `111x` is FUT, so every byte has a variant.
    pub open spec fn spec_variant(self) -> Result<Variant, &'static str> {
        let byte = self.clock_seq_high_and_reserved;
        if byte < 0x80 {
            Ok(Variant::NCS)
        } else if byte < 0xc0 {
            Ok(Variant::RFC4122)
        } else if byte < 0xe0 {
            Ok(Variant::MS)
        } else {
            Ok(Variant::FUT)
        }
    }

    /// These fields with the version nibble replaced by `version`; the low
    /// twelve bits of `field_high_and_version` stay.
    pub open spec fn spec_with_version(self, version: Version) -> Layout {
        Layout {
            field_high_and_version: (version.spec_code() * 0x1000 + self.field_high_and_version
                % 0x1000) as u16,
            ..self
        }
    }

    /// These fields with the RFC4122 tag in the high nibble of
    /// `clock_seq_high_and_reserved`; its low nibble stays.
    pub open spec fn spec_with_rfc4122(self) -> Layout {
        Layout {
            clock_seq_high_and_reserved: (0x80 + self.clock_seq_high_and_reserved % 0x10) as u8,
            ..self
        }
    }

    /// Returns `Layout` from sequence of integral numbers. Every sixteen
    /// bytes have a layout, and it generates the same bytes again.
    pub fn from_bytes(bytes: Bytes) -> (r: Layout)
        ensures
            r == Self::spec_from_bytes(bytes),
            r.spec_generate() == UUID(bytes),
    {
        let b0: u8 = bytes[0];
        let b1: u8 = bytes[1];
        let b2: u8 = bytes[2];
        let b3: u8 = bytes[3];
        let b4: u8 = bytes[4];
        let b5: u8 = bytes[5];
        let b6: u8 = bytes[6];
        let b7: u8 = bytes[7];
        let field_low: u32 = ((b0 as u32) << 24) | ((b1 as u32) << 16) | ((b2 as u32) << 8)
            | (b3 as u32);
        let field_mid: u16 = ((b4 as u16) << 8) | (b5 as u16);
        let field_high_and_version: u16 = ((b6 as u16) << 8) | (b7 as u16);
        proof {
            assert(((b0 as u32) << 24) | ((b1 as u32) << 16) | ((b2 as u32) << 8) | (b3 as u32)
                == b0 * 0x100_0000 + b1 * 0x1_0000 + b2 * 0x100 + b3) by (bit_vector);
            assert(((b4 as u16) << 8) | (b5 as u16) == b4 * 0x100 + b5) by (bit_vector);
            assert(((b6 as u16) << 8) | (b7 as u16) == b6 * 0x100 + b7) by (bit_vector);
            lemma_generate_from_bytes(bytes);
        }
        Layout {
            field_low,
            field_mid,
            field_high_and_version,
            clock_seq_high_and_reserved: bytes[8],
            clock_seq_low: bytes[9],
            node: Node([bytes[10], bytes[11], bytes[12], bytes[13], bytes[14], bytes[15]]),
        }
    }

    /// Returns the memory representation of `UUID`, from which `from_bytes`
    /// reads these fields again.
    pub fn generate(&self) -> (r: UUID)
        ensures
            r == self.spec_generate(),
            Self::spec_from_bytes(r.0) == *self,
    {
        let low: u32 = self.field_low;
        let mid: u16 = self.field_mid;
        let high: u16 = self.field_high_and_version;
        proof {
            assert({
                &&& (low >> 24) as u8 == low / 0x100_0000
                &&& ((low >> 16) & 0xff) as u8 == low / 0x1_0000 % 0x100
                &&& ((low >> 8) & 0xff) as u8 == low / 0x100 % 0x100
                &&& (low & 0xff) as u8 == low % 0x100
            }) by (bit_vector);
            assert({
                &&& (mid >> 8) as u8 == mid / 0x100
                &&& (mid & 0xff) as u8 == mid % 0x100
            }) by (bit_vector);
            assert({
                &&& (high >> 8) as u8 == high / 0x100
                &&& (high & 0xff) as u8 == high % 0x100
            }) by (bit_vector);
            lemma_from_bytes_generate(*self);
        }
        let node: [u8; 6] = self.node.0;
        UUID(
            [
                (low >> 24) as u8,
                ((low >> 16) & 0xff) as u8,
                ((low >> 8) & 0xff) as u8,
                (low & 0xff) as u8,
                (mid >> 8) as u8,
                (mid & 0xff) as u8,
                (high >> 8) as u8,
                (high & 0xff) as u8,
                self.clock_seq_high_and_reserved,
                self.clock_seq_low,
                node[0],
                node[1],
                node[2],
                node[3],
                node[4],
                node[5],
            ],
        )
    }

    /// Returns the algorithm number of `UUID`.
    pub fn get_version(&self) -> (r: Result<Version, &'static str>)
        ensures
            r == self.spec_version(),
    {
        let high: u16 = self.field_high_and_version;
        let code: u16 = high >> 12;
        proof {
            assert(high >> 12 == high / 0x1000) by (bit_vector);
        }
        match code {
            1 => Ok(Version::TIME),
            2 => Ok(Version::DCE),
            3 => Ok(Version::MD5),
            4 => Ok(Version::RAND),
            5 => Ok(Version::SHA1),
            _ => Err("Invalid version"),
        }
    }

    /// Returns the type field of `UUID`. The tag is a prefix code that covers
    /// every byte, so the result is never an error.
    pub fn get_variant(&self) -> (r: Result<Variant, &'static str>)
        ensures
            r == self.spec_variant(),
            r is Ok,
    {
        let byte: u8 = self.clock_seq_high_and_reserved;
        let tag: u8 = byte >> 5;
        proof {
            assert(byte >> 5 == byte / 0x20) by (bit_vector);
        }
        match tag {
            0 | 1 | 2 | 3 => Ok(Variant::NCS),
            4 | 5 => Ok(Variant::RFC4122),
            6 => Ok(Variant::MS),
            _ => Ok(Variant::FUT),
        }
    }

    /// Replaces the version nibble by the code of `version`.
    pub fn with_version(self, version: Version) -> (r: Layout)
        ensures
            r == self.spec_with_version(version),
            r.spec_version() == Ok::<Version, &'static str>(version),
            r.spec_variant() == self.spec_variant(),
    {
        let high: u16 = self.field_high_and_version;
        let code: u16 = version.code() as u16;
        proof {
            assert((code << 12) | (high & 0x0fff) == code * 0x1000 + high % 0x1000) by (bit_vector)
                requires
                    code <= 5,
            ;
        }
        Layout { field_high_and_version: (code << 12) | (high & 0x0fff), ..self }
    }

    /// Forces the variant tag to RFC4122.
    pub fn with_rfc4122(self) -> (r: Layout)
        ensures
            r == self.spec_with_rfc4122(),
            r.spec_variant() == Ok::<Variant, &'static str>(Variant::RFC4122),
            r.spec_version() == self.spec_version(),
    {
        let byte: u8 = self.clock_seq_high_and_reserved;
        proof {
            assert(0x80 | (byte & 0x0f) == 0x80 + byte % 0x10) by (bit_vector);
        }
        Layout { clock_seq_high_and_reserved: 0x80 | (byte & 0x0f), ..self }
    }
}

/// Four bytes joined big-endian into one number split into the same bytes.
proof fn lemma_split_joined_u32(b0: u8, b1: u8, b2: u8, b3: u8)
    by (bit_vector)
    ensures
        b0 * 0x100_0000 + b1 * 0x1_0000 + b2 * 0x100 + b3 <= 0xffff_ffff,
        (b0 * 0x100_0000 + b1 * 0x1_0000 + b2 * 0x100 + b3) / 0x100_0000 == b0,
        (b0 * 0x100_0000 + b1 * 0x1_0000 + b2 * 0x100 + b3) / 0x1_0000 % 0x100 == b1,
        (b0 * 0x100_0000 + b1 * 0x1_0000 + b2 * 0x100 + b3) / 0x100 % 0x100 == b2,
        (b0 * 0x100_0000 + b1 * 0x1_0000 + b2 * 0x100 + b3) % 0x100 == b3,
{
}

/// Two bytes joined big-endian into one number split into the same bytes.
proof fn lemma_split_joined_u16(b0: u8, b1: u8)
    by (bit_vector)
    ensures
        b0 * 0x100 + b1 <= 0xffff,
        (b0 * 0x100 + b1) / 0x100 == b0,
        (b0 * 0x100 + b1) % 0x100 == b1,
{
}

/// Serialising what was parsed gives the bytes back: for every sixteen
/// bytes `b`, the fields read from `b` generate `b`.
pub proof fn lemma_generate_from_bytes(b: Bytes)
    ensures
        Layout::spec_from_bytes(b).spec_generate() == UUID(b),
{
    lemma_split_joined_u32(b[0], b[1], b[2], b[3]);
    lemma_split_joined_u16(b[4], b[5]);
    lemma_split_joined_u16(b[6], b[7]);
    assert(Layout::spec_from_bytes(b).spec_generate().0 =~= b);
}

/// Parsing what was serialised gives the fields back: for every layout `l`,
/// whichever way it was made, the bytes generated from `l` parse to `l`.
pub proof fn lemma_from_bytes_generate(l: Layout)
    ensures
        Layout::spec_from_bytes(l.spec_generate().0) == l,
{
    assert(Layout::spec_from_bytes(l.spec_generate().0).node.0 =~= l.node.0);
}

/// Stamping pins what is read back: after the version nibble is set to
/// `version` and the variant tag is forced, in either order, the layout
/// reads as `version` and as RFC4122, and the two orders give one layout.
pub proof fn lemma_stamped_reads_back(l: Layout, version: Version)
    ensures
        l.spec_with_version(version).spec_with_rfc4122() == l.spec_with_rfc4122().spec_with_version(
            version,
        ),
        l.spec_with_version(version).spec_with_rfc4122().spec_version() == Ok::<
            Version,
            &'static str,
        >(version),
        l.spec_with_version(version).spec_with_rfc4122().spec_variant() == Ok::<
            Variant,
            &'static str,
        >(Variant::RFC4122),
{
}

} // verus!
