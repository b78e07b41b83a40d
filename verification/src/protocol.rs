//! The shim lock protocol: its function table and the two operations on it.

use vstd::prelude::*;
use crate::context::Context;
use crate::digest::{Hashes, Sha1Digest, Sha256Digest};
use crate::status::{Error, Status, BAD_BUFFER_SIZE, SUCCESS};

verus! {

/// The identifier under which the firmware publishes the protocol, in the order
/// in which it is written: `605dab50-e046-4300-abb6-3dd810dd8b23`.
pub const GUID: u128 = 0x605dab50_e046_4300_abb6_3dd810dd8b23;

/// Whether a buffer of `len` bytes can be described to the firmware, whose
/// size parameter is a 32-bit unsigned number.
pub open spec fn size_fits(len: nat) -> bool {
    len <= u32::MAX
}

/// The size to hand to the firmware for a buffer of `len` bytes, or the
/// `BAD_BUFFER_SIZE` error where `len` does not fit the size parameter.
pub open spec fn size_for(len: nat) -> Result<u32, Error> {
    if size_fits(len) {
        Ok(len as u32)
    } else {
        Err(Error { status: Status(BAD_BUFFER_SIZE) })
    }
}

/// Checks that a buffer's length fits the firmware's size parameter.
///
/// The length is never truncated: one that does not fit is refused, so that the
/// firmware cannot be made to look at fewer bytes than the caller holds.
pub fn checked_size(len: usize) -> (r: Result<u32, Error>)
    ensures
        r == size_for(len as nat),
{
    if len > u32::MAX as usize {
        Err(Error::new(Status(BAD_BUFFER_SIZE)))
    } else {
        Ok(len as u32)
    }
}

/// What the binding asks of the three firmware functions before it will hold
/// them: which calls they must accept.
///
/// - `verify` accepts a buffer together with its exact length.
/// - `context` accepts a buffer, its exact length and fresh storage for the
///   context, which it hands back filled.
/// - `hash` accepts a buffer, its exact length and a context only where that
///   context is what `context` handed back when it reported success for the
///   same buffer and length; the digests it is given to overwrite may hold
///   anything.
///
/// Nothing more is asked, so the binding may rely on nothing more: it can make
/// no call with a size other than the buffer's length, none at all for a buffer
/// whose length does not fit the size parameter, and no `hash` call that does
/// not follow a successful `context` call on the same buffer.
pub open spec fn accepts_protocol<V, H, C>(verify: V, hash: H, context: C) -> bool where
    V: Fn(&[u8], u32) -> Status,
    H: Fn(&[u8], u32, Context, Sha256Digest, Sha1Digest) -> (Status, Sha256Digest, Sha1Digest),
    C: Fn(&[u8], u32, Context) -> (Status, Context),
 {
    &&& forall|buffer: &[u8], size: u32|
        buffer@.len() == size ==> #[trigger] call_requires(verify, (buffer, size))
    &&& forall|buffer: &[u8], size: u32|
        buffer@.len() == size ==> #[trigger] call_requires(
            context,
            (buffer, size, Context::fresh()),
        )
    &&& forall|
        buffer: &[u8],
        size: u32,
        built: Context,
        sha256: Sha256Digest,
        sha1: Sha1Digest,
    |
        buffer@.len() == size && call_ensures(
            context,
            (buffer, size, Context::fresh()),
            (Status(SUCCESS), built),
        ) ==> #[trigger] call_requires(hash, (buffer, size, built, sha256, sha1))
}

/// Shim Lock protocol.
///
/// This protocol is not part of the UEFI specification, but is installed by the
/// shim bootloader, which is commonly used by Linux distributions to support
/// UEFI Secure Boot. Shim is built with an embedded certificate that is used to
/// validate another EFI application before running it. That application may
/// itself be a bootloader that needs to validate another EFI application before
/// running it, and the shim lock protocol exists to support that.
///
/// The value is the protocol's function table: three functions that the
/// firmware supplies, in the table's order. Each takes the image as a buffer
/// with its length and returns a status.
///
/// - `verify` checks the image's signature.
/// - `hash` takes the context of the image and the two digests to overwrite,
///   and hands the digests back as it left them.
/// - `context` takes fresh storage, parses the image into it and hands the
///   storage back as it left it.
pub struct ShimLock<V, H, C> where
    V: Fn(&[u8], u32) -> Status,
    H: Fn(&[u8], u32, Context, Sha256Digest, Sha1Digest) -> (Status, Sha256Digest, Sha1Digest),
    C: Fn(&[u8], u32, Context) -> (Status, Context),
 {
    verify: V,
    hash: H,
    context: C,
}

impl<V, H, C> ShimLock<V, H, C> where
    V: Fn(&[u8], u32) -> Status,
    H: Fn(&[u8], u32, Context, Sha256Digest, Sha1Digest) -> (Status, Sha256Digest, Sha1Digest),
    C: Fn(&[u8], u32, Context) -> (Status, Context),
 {
    /// The table's `verify` function.
    pub closed spec fn verify_fn(&self) -> V {
        self.verify
    }

    /// The table's `hash` function.
    pub closed spec fn hash_fn(&self) -> H {
        self.hash
    }

    /// The table's `context` function.
    pub closed spec fn context_fn(&self) -> C {
        self.context
    }

    #[verifier::type_invariant]
    spec fn well_formed(&self) -> bool {
        accepts_protocol(self.verify, self.hash, self.context)
    }

    /// Binds a function table.
    ///
    /// The three functions must accept the calls that the protocol makes, see
    /// [`accepts_protocol`]; a function that can be called with any arguments
    /// does.
    pub fn new(verify: V, hash: H, context: C) -> (shim: Self)
        requires
            accepts_protocol(verify, hash, context),
        ensures
            shim.verify_fn() == verify,
            shim.hash_fn() == hash,
            shim.context_fn() == context,
    {
        ShimLock { verify, hash, context }
    }

    /// What `verify` may return for `buffer`.
    ///
    /// For a buffer that does not fit the size parameter, the
    /// `BAD_BUFFER_SIZE` error and nothing else. For any other buffer, the
    /// reading as a result of a status that the table's `verify` function
    /// returns for the buffer and its length.
    pub open spec fn verify_outcome(&self, buffer: &[u8], r: Result<(), Error>) -> bool {
        match size_for(buffer@.len()) {
            Err(e) => r == Err::<(), Error>(e),
            Ok(size) => exists|status: Status|
                #[trigger] call_ensures(self.verify_fn(), (buffer, size), status) && r
                    == status.as_result(),
        }
    }

    /// Verify that an EFI application is signed by the certificate embedded in
    /// shim.
    ///
    /// The buffer's size must fit in a `u32`; if that condition is not met then
    /// a `BAD_BUFFER_SIZE` error will be returned and the shim lock protocol
    /// will not be called.
    pub fn verify(&self, buffer: &[u8]) -> (r: Result<(), Error>)
        ensures
            self.verify_outcome(buffer, r),
    {
        proof {
            use_type_invariant(self);
        }
        let size: u32 = checked_size(buffer.len())?;
        let status = (self.verify)(buffer, size);
        assert(call_ensures(self.verify_fn(), (buffer, size), status));
        status.to_result()
    }

    /// What `hash` may return for `buffer`, and what it may leave in the
    /// caller's digests, which held `before` and hold `after`.
    ///
    /// - For a buffer that does not fit the size parameter: the
    ///   `BAD_BUFFER_SIZE` error, the digests untouched.
    /// - Otherwise the table's `context` function returns a status and a
    ///   context for the buffer, its length and fresh storage. Where that
    ///   status is not success: the error that carries it, the digests
    ///   untouched.
    /// - Otherwise the table's `hash` function returns a status and two digests
    ///   for the buffer, its length, that context and the caller's digests:
    ///   the caller's digests are now those two, byte for byte, and the result
    ///   is the reading of that status.
    pub open spec fn hash_outcome(
        &self,
        buffer: &[u8],
        before: Hashes,
        after: Hashes,
        r: Result<(), Error>,
    ) -> bool {
        match size_for(buffer@.len()) {
            Err(e) => r == Err::<(), Error>(e) && after == before,
            Ok(size) => exists|status: Status, built: Context|
                {
                    &&& #[trigger] call_ensures(
                        self.context_fn(),
                        (buffer, size, Context::fresh()),
                        (status, built),
                    )
                    &&& if status.succeeded() {
                        self.digests_computed(buffer, size, built, before, after, r)
                    } else {
                        r == Err::<(), Error>(Error { status }) && after == before
                    }
                },
        }
    }

    /// The second phase of `hash`: the table's `hash` function returns a status
    /// and two digests for the buffer, `size`, the context `built` and the
    /// digests `before`; `after` holds exactly those two digests and `r` is the
    /// reading of that status.
    pub open spec fn digests_computed(
        &self,
        buffer: &[u8],
        size: u32,
        built: Context,
        before: Hashes,
        after: Hashes,
        r: Result<(), Error>,
    ) -> bool {
        exists|status: Status, sha256: Sha256Digest, sha1: Sha1Digest|
            {
                &&& #[trigger] call_ensures(
                    self.hash_fn(),
                    (buffer, size, built, before.sha256, before.sha1),
                    (status, sha256, sha1),
                )
                &&& after == (Hashes { sha256, sha1 })
                &&& r == status.as_result()
            }
    }

    /// Compute the Authenticode Hash of the provided EFI application.
    ///
    /// The buffer's size must fit in a `u32`; if that condition is not met then
    /// a `BAD_BUFFER_SIZE` error will be returned and the shim lock protocol
    /// will not be called.
    pub fn hash(&self, buffer: &[u8], hashes: &mut Hashes) -> (r: Result<(), Error>)
        ensures
            self.hash_outcome(buffer, *old(hashes), *final(hashes), r),
    {
        proof {
            use_type_invariant(self);
        }
        let size: u32 = checked_size(buffer.len())?;
        let (built_status, context) = (self.context)(buffer, size, Context::new());
        assert(call_ensures(
            self.context_fn(),
            (buffer, size, Context::fresh()),
            (built_status, context),
        ));
        built_status.to_result()?;
        let (status, sha256, sha1) = (self.hash)(buffer, size, context, hashes.sha256, hashes.sha1);
        assert(call_ensures(
            self.hash_fn(),
            (buffer, size, context, old(hashes).sha256, old(hashes).sha1),
            (status, sha256, sha1),
        ));
        hashes.sha256 = sha256;
        hashes.sha1 = sha1;
        status.to_result()
    }
}

} // verus!
