//! The digests that one hash operation produces.

use vstd::prelude::*;

verus! {

/// Length in bytes of a SHA-1 digest.
pub const SHA1_DIGEST_SIZE: usize = 20;

/// Length in bytes of a SHA-256 digest.
pub const SHA256_DIGEST_SIZE: usize = 32;

/// A SHA-1 digest.
pub type Sha1Digest = [u8; SHA1_DIGEST_SIZE];

/// A SHA-256 digest.
pub type Sha256Digest = [u8; SHA256_DIGEST_SIZE];

/// Authenticode hashes of some UEFI application.
///
/// The caller owns the value and hands it to a hash operation, which fills both
/// digests in place. The digests mean something only after an operation that
/// returned success.
#[derive(Debug)]
pub struct Hashes {
    /// SHA256 Authenticode Digest
    pub sha256: Sha256Digest,
    /// SHA1 Authenticode Digest
    pub sha1: Sha1Digest,
}

} // verus!
