//! Universally unique identifiers: the 16-byte layout codec, the canonical
//! string forms, and the version-specific generators, each with a contract
//! that Verus checks.

pub mod clock_seq;
pub mod digest;
pub mod layout;
pub mod rfc4122;
pub mod text;
pub mod uuid;

pub use crate::clock_seq::ClockSeq;
pub use crate::layout::{Layout, Node, TimeStamp, Variant, Version};
pub use crate::rfc4122::v2::Domain;
pub use crate::uuid::{Bytes, UUID};
