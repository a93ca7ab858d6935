//! Name-based identifiers: the digest of a namespace and a name under the
//! version and variant tags.

use vstd::prelude::*;
use vstd::string::*;
use vstd::utf8::*;
use crate::digest::{sha1_digest, sha1_of, SHA1_MESSAGE_LIMIT};
use crate::layout::{Layout, Variant, Version};
use crate::text::{spec_hex, spec_hyphenated};
use crate::uuid::{Bytes, UUID};

verus! {

impl Layout {
    /// The layout made from a digest: its first sixteen bytes read as wire
    /// bytes, then the version nibble set to MD5 and the variant tag to
    /// RFC4122.
    pub open spec fn spec_from_digest(digest: Seq<u8>) -> Layout {
        Layout::spec_from_bytes(
            [
                digest[0],
                digest[1],
                digest[2],
                digest[3],
                digest[4],
                digest[5],
                digest[6],
                digest[7],
                digest[8],
                digest[9],
                digest[10],
                digest[11],
                digest[12],
                digest[13],
                digest[14],
                digest[15],
            ],
        ).spec_with_version(Version::MD5).spec_with_rfc4122()
    }

    /// Makes the layout of a name-based `UUID` from the digest of its
    /// namespace and name.
    pub fn from_digest(digest: &[u8; 20]) -> (r: Layout)
        ensures
            r == Self::spec_from_digest(digest@),
            r.spec_version() == Ok::<Version, &'static str>(Version::MD5),
            r.spec_variant() == Ok::<Variant, &'static str>(Variant::RFC4122),
    {
        let bytes: Bytes = [
            digest[0],
            digest[1],
            digest[2],
            digest[3],
            digest[4],
            digest[5],
            digest[6],
            digest[7],
            digest[8],
            digest[9],
            digest[10],
            digest[11],
            digest[12],
            digest[13],
            digest[14],
            digest[15],
        ];
        Layout::from_bytes(bytes).with_version(Version::MD5).with_rfc4122()
    }
}

impl UUID {
    /// The message that is digested for a name in a namespace: the bytes of
    /// the namespace's canonical lowercase form, then the bytes of the name.
    pub open spec fn spec_v3_message(data: Seq<char>, ns: UUID) -> Seq<u8> {
        encode_utf8(ns.spec_to_lower_hex()) + encode_utf8(data)
    }

    /// The layout of the name-based identifier of a name in a namespace.
    pub open spec fn spec_v3(data: Seq<char>, ns: UUID) -> Layout {
        Layout::spec_from_digest(sha1_digest(Self::spec_v3_message(data, ns)))
    }

    /// Creates `UUID` by hashing a namespace identifier and name; the digest
    /// is SHA-1, the version stamped is MD5.
    pub fn v3(data: &str, ns: UUID) -> (r: Layout)
        requires
            36 + data.spec_bytes().len() < SHA1_MESSAGE_LIMIT,
        ensures
            r == Self::spec_v3(data@, ns),
            r.spec_version() == Ok::<Version, &'static str>(Version::MD5),
            r.spec_variant() == Ok::<Variant, &'static str>(Variant::RFC4122),
    {
        let canonical: String = ns.to_lower_hex();
        let mut message: Vec<u8> = Vec::new();
        message.extend_from_slice(canonical.as_str().as_bytes());
        message.extend_from_slice(data.as_bytes());
        proof {
            lemma_canonical_is_ascii(ns);
            is_ascii_chars_encode_utf8(ns.spec_to_lower_hex());
            assert(message@ =~= Self::spec_v3_message(data@, ns));
        }
        let digest: [u8; 20] = sha1_of(message.as_slice());
        Layout::from_digest(&digest)
    }
}

/// The canonical form is thirty-six ASCII characters.
proof fn lemma_canonical_is_ascii(ns: UUID)
    ensures
        ns.spec_to_lower_hex().len() == 36,
        is_ascii_chars(ns.spec_to_lower_hex()),
{
}

/// The same name in the same namespace always gives the same identifier.
pub proof fn lemma_v3_deterministic(data1: Seq<char>, ns1: UUID, data2: Seq<char>, ns2: UUID)
    requires
        data1 == data2,
        ns1 == ns2,
    ensures
        UUID::spec_v3(data1, ns1) == UUID::spec_v3(data2, ns2),
{
}

} // verus!
