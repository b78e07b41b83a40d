//! What a caller may conclude from the results of the two operations.
//!
//! Each statement here is proved from the contracts of `ShimLock::verify` and
//! `ShimLock::hash` alone, for every function table.

use vstd::prelude::*;
use crate::context::Context;
use crate::digest::{Hashes, Sha1Digest, Sha256Digest};
use crate::protocol::{size_fits, ShimLock};
use crate::status::{Error, Status, BAD_BUFFER_SIZE, SUCCESS};

verus! {

/// The firmware is asked exactly when the buffer fits the size parameter.
///
/// Where the length fits, what `verify` returns is the reading of a status that
/// the table's `verify` function returns for the buffer and its length, and
/// what `hash` returns and leaves behind starts from a status and a context
/// that the table's `context` function returns for them. Where the length does
/// not fit, `verify` returns the `BAD_BUFFER_SIZE` error, and `hash` returns it
/// too and leaves the digests alone, whatever the table holds: no function of
/// the table has a say in either.
pub proof fn lemma_size_decides_call<V, H, C>(
    shim: ShimLock<V, H, C>,
    buffer: &[u8],
    before: Hashes,
    after: Hashes,
    r: Result<(), Error>,
) where
    V: Fn(&[u8], u32) -> Status,
    H: Fn(&[u8], u32, Context, Sha256Digest, Sha1Digest) -> (Status, Sha256Digest, Sha1Digest),
    C: Fn(&[u8], u32, Context) -> (Status, Context),

    ensures
        size_fits(buffer@.len()) && shim.verify_outcome(buffer, r) ==> exists|status: Status|
            #[trigger] call_ensures(shim.verify_fn(), (buffer, buffer@.len() as u32), status) && r
                == status.as_result(),
        size_fits(buffer@.len()) && shim.hash_outcome(buffer, before, after, r) ==> exists|
            status: Status,
            built: Context,
        | #[trigger]
            call_ensures(
                shim.context_fn(),
                (buffer, buffer@.len() as u32, Context::fresh()),
                (status, built),
            ),
        !size_fits(buffer@.len()) ==> (shim.verify_outcome(buffer, r) <==> r == Err::<(), Error>(
            Error { status: Status(BAD_BUFFER_SIZE) },
        )),
        !size_fits(buffer@.len()) ==> (shim.hash_outcome(buffer, before, after, r) <==> r == Err::<
            (),
            Error,
        >(Error { status: Status(BAD_BUFFER_SIZE) }) && after == before),
{
}

/// The digests are computed only after the context was built.
///
/// Whenever `hash` returns success or leaves the caller's digests changed, the
/// table's `context` function has reported success for the buffer and its
/// length, and what `hash` returned and left behind is what the table's `hash`
/// function returned for the context built there.
pub proof fn lemma_digests_follow_context<V, H, C>(
    shim: ShimLock<V, H, C>,
    buffer: &[u8],
    before: Hashes,
    after: Hashes,
    r: Result<(), Error>,
) where
    V: Fn(&[u8], u32) -> Status,
    H: Fn(&[u8], u32, Context, Sha256Digest, Sha1Digest) -> (Status, Sha256Digest, Sha1Digest),
    C: Fn(&[u8], u32, Context) -> (Status, Context),

    requires
        shim.hash_outcome(buffer, before, after, r),
        r is Ok || after != before,
    ensures
        size_fits(buffer@.len()),
        exists|built: Context|
            {
                &&& #[trigger] call_ensures(
                    shim.context_fn(),
                    (buffer, buffer@.len() as u32, Context::fresh()),
                    (Status(SUCCESS), built),
                )
                &&& shim.digests_computed(buffer, buffer@.len() as u32, built, before, after, r)
            },
{
    let size = buffer@.len() as u32;
    let (status, built) = choose|status: Status, built: Context|
        {
            &&& #[trigger] call_ensures(
                shim.context_fn(),
                (buffer, size, Context::fresh()),
                (status, built),
            )
            &&& if status.succeeded() {
                shim.digests_computed(buffer, size, built, before, after, r)
            } else {
                r == Err::<(), Error>(Error { status }) && after == before
            }
        };
    assert(status == Status(SUCCESS));
}

/// A context that cannot be built ends the operation.
///
/// Where the table's `context` function never reports success for the buffer,
/// `hash` returns an error that carries a status which that function returned,
/// and the caller's digests are as they were.
pub proof fn lemma_failed_context_ends_hash<V, H, C>(
    shim: ShimLock<V, H, C>,
    buffer: &[u8],
    before: Hashes,
    after: Hashes,
    r: Result<(), Error>,
) where
    V: Fn(&[u8], u32) -> Status,
    H: Fn(&[u8], u32, Context, Sha256Digest, Sha1Digest) -> (Status, Sha256Digest, Sha1Digest),
    C: Fn(&[u8], u32, Context) -> (Status, Context),

    requires
        shim.hash_outcome(buffer, before, after, r),
        size_fits(buffer@.len()),
        forall|status: Status, built: Context| #[trigger]
            call_ensures(
                shim.context_fn(),
                (buffer, buffer@.len() as u32, Context::fresh()),
                (status, built),
            ) ==> !status.succeeded(),
    ensures
        after == before,
        r matches Err(e) && !e.status.succeeded() && exists|built: Context| #[trigger]
            call_ensures(
                shim.context_fn(),
                (buffer, buffer@.len() as u32, Context::fresh()),
                (e.status, built),
            ),
{
}

/// After success the caller holds the digests that the firmware wrote.
///
/// Where `hash` returns success, the table's `hash` function returned the
/// success status together with exactly the two digests that the caller now
/// holds, all 32 and all 20 bytes of them, for a context that the table's
/// `context` function built for the same buffer.
pub proof fn lemma_success_holds_firmware_digests<V, H, C>(
    shim: ShimLock<V, H, C>,
    buffer: &[u8],
    before: Hashes,
    after: Hashes,
    r: Result<(), Error>,
) where
    V: Fn(&[u8], u32) -> Status,
    H: Fn(&[u8], u32, Context, Sha256Digest, Sha1Digest) -> (Status, Sha256Digest, Sha1Digest),
    C: Fn(&[u8], u32, Context) -> (Status, Context),

    requires
        shim.hash_outcome(buffer, before, after, r),
        r is Ok,
    ensures
        after.sha256@.len() == 32,
        after.sha1@.len() == 20,
        exists|built: Context|
            {
                &&& #[trigger] call_ensures(
                    shim.context_fn(),
                    (buffer, buffer@.len() as u32, Context::fresh()),
                    (Status(SUCCESS), built),
                )
                &&& call_ensures(
                    shim.hash_fn(),
                    (buffer, buffer@.len() as u32, built, before.sha256, before.sha1),
                    (Status(SUCCESS), after.sha256, after.sha1),
                )
            },
{
    lemma_digests_follow_context(shim, buffer, before, after, r);
    let size = buffer@.len() as u32;
    let built = choose|built: Context|
        {
            &&& #[trigger] call_ensures(
                shim.context_fn(),
                (buffer, size, Context::fresh()),
                (Status(SUCCESS), built),
            )
            &&& shim.digests_computed(buffer, size, built, before, after, r)
        };
    let (status, sha256, sha1) = choose|status: Status, sha256: Sha256Digest, sha1: Sha1Digest|
        {
            &&& #[trigger] call_ensures(
                shim.hash_fn(),
                (buffer, size, built, before.sha256, before.sha1),
                (status, sha256, sha1),
            )
            &&& after == (Hashes { sha256, sha1 })
            &&& r == status.as_result()
        };
    assert(status == Status(SUCCESS));
}

/// A status passes through `verify` unchanged.
///
/// For a buffer that fits the size parameter, `verify` may return success
/// exactly where the table's `verify` function may return the success status,
/// and may return an error exactly where that error carries a status, other
/// than success, that the table's `verify` function may return.
pub proof fn lemma_verify_keeps_status<V, H, C>(
    shim: ShimLock<V, H, C>,
    buffer: &[u8],
    r: Result<(), Error>,
) where
    V: Fn(&[u8], u32) -> Status,
    H: Fn(&[u8], u32, Context, Sha256Digest, Sha1Digest) -> (Status, Sha256Digest, Sha1Digest),
    C: Fn(&[u8], u32, Context) -> (Status, Context),

    requires
        size_fits(buffer@.len()),
    ensures
        shim.verify_outcome(buffer, r) <==> match r {
            Ok(_) => call_ensures(
                shim.verify_fn(),
                (buffer, buffer@.len() as u32),
                Status(SUCCESS),
            ),
            Err(e) => !e.status.succeeded() && call_ensures(
                shim.verify_fn(),
                (buffer, buffer@.len() as u32),
                e.status,
            ),
        },
{
    if r is Ok {
        assert(r->Ok_0 == ());
    }
}

/// Verifying twice gives the same answer.
///
/// Where the table's `verify` function can return only one status for the
/// buffer and its length, any two results of `verify` for that buffer are
/// equal: the binding keeps nothing from one call to the next.
pub proof fn lemma_verify_repeats<V, H, C>(
    shim: ShimLock<V, H, C>,
    buffer: &[u8],
    first: Result<(), Error>,
    second: Result<(), Error>,
) where
    V: Fn(&[u8], u32) -> Status,
    H: Fn(&[u8], u32, Context, Sha256Digest, Sha1Digest) -> (Status, Sha256Digest, Sha1Digest),
    C: Fn(&[u8], u32, Context) -> (Status, Context),

    requires
        shim.verify_outcome(buffer, first),
        shim.verify_outcome(buffer, second),
        forall|one: Status, other: Status|
            #[trigger] call_ensures(shim.verify_fn(), (buffer, buffer@.len() as u32), one)
                && #[trigger] call_ensures(
                shim.verify_fn(),
                (buffer, buffer@.len() as u32),
                other,
            ) ==> one == other,
    ensures
        first == second,
{
}

} // verus!
