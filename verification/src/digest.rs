//! The message digest that name-based identifiers are made from.

use vstd::prelude::*;

verus! {

/// The twenty bytes that `sha1::Sha1` gives as the SHA-1 digest of a
/// message. It is a function of the message's bytes alone.
pub uninterp spec fn sha1_digest(message: Seq<u8>) -> Seq<u8>;

/// The length in bytes from which on `sha1::Sha1` can no longer count the
/// bits of a message in sixty-four bits.
pub const SHA1_MESSAGE_LIMIT: u64 = 0x2000_0000_0000_0000;

/// Calls `sha1::Sha1::from` on the message, then `digest` and `bytes` on
/// what that gives. Assumed, not proved: the twenty bytes that come back are
/// the digest of exactly these bytes, the same on every call. The message
/// must be short enough for its bit count to fit in sixty-four bits, as the
/// arithmetic in `digest` needs.
#[verifier::external_body]
pub(crate) fn sha1_of(message: &[u8]) -> (r: [u8; 20])
    requires
        message@.len() < SHA1_MESSAGE_LIMIT,
    ensures
        r@ == sha1_digest(message@),
{
    sha1::Sha1::from(message).digest().bytes()
}

} // verus!
