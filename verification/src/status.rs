//! Status codes of firmware calls and their reading as results.

use vstd::prelude::*;

verus! {

/// The top bit of a machine word, set in every status code that reports an error.
pub const ERROR_BIT: usize = usize::MAX - usize::MAX / 2;

/// Code of the status that reports success.
pub const SUCCESS: usize = 0;

/// Code of the status that reports a buffer whose size is not acceptable.
pub const BAD_BUFFER_SIZE: usize = ERROR_BIT + 4;

/// The status code that a firmware call returned.
#[derive(Clone, Copy, Debug, PartialEq, Eq, Structural)]
pub struct Status(pub usize);

/// A failed operation, with the status that reported the failure.
#[derive(Clone, Copy, Debug, PartialEq, Eq, Structural)]
pub struct Error {
    pub status: Status,
}

impl Error {
    /// The error that carries `status`.
    pub fn new(status: Status) -> (e: Error)
        ensures
            e == (Error { status }),
    {
        Error { status }
    }

    /// The status that reported the failure.
    pub fn status(&self) -> (s: Status)
        ensures
            s == self.status,
    {
        self.status
    }
}

impl Status {
    /// Whether this status reports success: its code is `SUCCESS`, no other.
    pub open spec fn succeeded(self) -> bool {
        self.0 == SUCCESS
    }

    /// The result that this status stands for: `Ok` for success, and for any
    /// other status the error that carries it unchanged.
    pub open spec fn as_result(self) -> Result<(), Error> {
        if self.succeeded() {
            Ok(())
        } else {
            Err(Error { status: self })
        }
    }

    /// Tells whether this status reports success.
    #[verifier::when_used_as_spec(succeeded)]
    pub fn is_success(self) -> (b: bool)
        ensures
            b == self.succeeded(),
    {
        self.0 == SUCCESS
    }

    /// Turns the status into a result.
    #[verifier::when_used_as_spec(as_result)]
    pub fn to_result(self) -> (r: Result<(), Error>)
        ensures
            r == self.as_result(),
    {
        if self.is_success() {
            Ok(())
        } else {
            Err(Error::new(self))
        }
    }
}

/// Reading a status as a result loses nothing: the result is `Ok` for the
/// success status alone, and an error hands back the very status it was read
/// from.
pub proof fn lemma_reading_keeps_status(status: Status)
    ensures
        status.as_result() is Ok <==> status == Status(SUCCESS),
        status.as_result() is Err <==> status != Status(SUCCESS),
        status.as_result() matches Err(e) ==> e.status == status,
{
}

/// `ERROR_BIT` is the top bit of a machine word and nothing else, and
/// `BAD_BUFFER_SIZE` is an error code: it has that bit set, so it is not
/// `SUCCESS`.
pub proof fn lemma_bad_buffer_size_is_error()
    ensures
        2 * ERROR_BIT == usize::MAX + 1,
        ERROR_BIT <= BAD_BUFFER_SIZE <= usize::MAX,
        BAD_BUFFER_SIZE - ERROR_BIT == 4,
        !Status(BAD_BUFFER_SIZE).succeeded(),
{
}

} // verus!
