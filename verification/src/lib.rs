//! A typed binding to the shim lock protocol.
//!
//! The shim bootloader installs a small table of firmware functions that let a
//! later boot stage ask whether an image is signed by a certificate shim trusts,
//! and compute the Authenticode digests of an image. This crate holds the rules
//! of that binding: which sizes may be handed to the firmware, in which order
//! its functions are called, and how a returned status becomes a result.

pub mod context;
pub mod digest;
pub mod guarantees;
pub mod protocol;
pub mod status;

pub use context::Context;
pub use digest::{Hashes, Sha1Digest, Sha256Digest, SHA1_DIGEST_SIZE, SHA256_DIGEST_SIZE};
pub use protocol::{checked_size, ShimLock, GUID};
pub use status::{Error, Status, BAD_BUFFER_SIZE, ERROR_BIT, SUCCESS};
