//! Firmware status words and the error type made from them.
use vstd::prelude::*;

verus! {

/// A firmware status: one machine word. Zero is success, a word with
/// the high bit set is an error, anything else is a warning.
#[derive(Clone, Copy, Debug, PartialEq, Eq, Structural)]
pub struct EfiStatus(pub usize);

/// The lowest word that has the high bit set.
pub const ERROR_BIT: usize = usize::MAX / 2 + 1;

pub const SUCCESS: usize = 0;

pub const INVALID_PARAMETER: usize = ERROR_BIT + 2;

pub const UNSUPPORTED: usize = ERROR_BIT + 3;

pub const NOT_FOUND: usize = ERROR_BIT + 14;

pub const ABORTED: usize = ERROR_BIT + 21;

pub const SECURITY_VIOLATION: usize = ERROR_BIT + 26;

impl EfiStatus {
    /// The call succeeded.
    pub fn success() -> (r: Self)
        ensures
            r == EfiStatus(SUCCESS),
    {
        EfiStatus(SUCCESS)
    }

    /// An argument was refused.
    pub fn invalid_parameter() -> (r: Self)
        ensures
            r == EfiStatus(INVALID_PARAMETER),
    {
        EfiStatus(INVALID_PARAMETER)
    }

    /// The operation is not offered.
    pub fn unsupported() -> (r: Self)
        ensures
            r == EfiStatus(UNSUPPORTED),
    {
        EfiStatus(UNSUPPORTED)
    }

    /// Nothing matched.
    pub fn not_found() -> (r: Self)
        ensures
            r == EfiStatus(NOT_FOUND),
    {
        EfiStatus(NOT_FOUND)
    }

    /// The operation was aborted.
    pub fn aborted() -> (r: Self)
        ensures
            r == EfiStatus(ABORTED),
    {
        EfiStatus(ABORTED)
    }

    /// The image was loaded, but the platform's policy does not vouch
    /// for it.
    pub fn security_violation() -> (r: Self)
        ensures
            r == EfiStatus(SECURITY_VIOLATION),
    {
        EfiStatus(SECURITY_VIOLATION)
    }

    /// The status whose word is `raw`.
    pub fn from_raw(raw: usize) -> (r: Self)
        ensures
            r.0 == raw,
    {
        EfiStatus(raw)
    }

    /// The word itself.
    pub fn raw(self) -> (r: usize)
        ensures
            r == self.0,
    {
        self.0
    }

    pub open spec fn spec_is_success(self) -> bool {
        self.0 == 0
    }

    pub open spec fn spec_is_error(self) -> bool {
        self.0 >= ERROR_BIT
    }

    /// Whether the word is zero.
    #[verifier::when_used_as_spec(spec_is_success)]
    pub fn is_success(self) -> (r: bool)
        ensures
            r == self.spec_is_success(),
    {
        self.0 == 0
    }

    /// Whether the high bit of the word is set.
    #[verifier::when_used_as_spec(spec_is_error)]
    pub fn is_error(self) -> (r: bool)
        ensures
            r == self.spec_is_error(),
    {
        self.0 > usize::MAX / 2
    }

    /// Whether the word is neither success nor an error.
    pub fn is_warning(self) -> (r: bool)
        ensures
            r == (!self.spec_is_success() && !self.spec_is_error()),
    {
        self.0 != 0 && self.0 <= usize::MAX / 2
    }

    /// What a call that returns nothing but a status comes to.
    pub open spec fn outcome(self) -> Result<(), UefiError> {
        if self.0 == 0 {
            Ok(())
        } else {
            Err(UefiError { status: self })
        }
    }

    /// Success for the zero word, and for every other word an error that
    /// holds it.
    pub fn into_result(self) -> (r: Result<(), UefiError>)
        ensures
            r == self.outcome(),
    {
        if self.0 == 0 {
            Ok(())
        } else {
            Err(UefiError { status: self })
        }
    }
}

/// A firmware call that did not succeed. It keeps the status as the
/// firmware gave it.
#[derive(Clone, Copy, Debug, PartialEq, Eq, Structural)]
pub struct UefiError {
    pub status: EfiStatus,
}

impl UefiError {
    /// An error that holds `status`.
    pub fn new(status: EfiStatus) -> (r: Self)
        ensures
            r.status == status,
    {
        UefiError { status }
    }

    /// The status this error was made from.
    pub fn status(&self) -> (r: EfiStatus)
        ensures
            r == self.status,
    {
        self.status
    }
}

/// An error keeps the firmware's word: made from a status and asked for
/// it again, it gives the same word back, and a status other than
/// success always becomes the error that holds it.
pub proof fn lemma_status_round_trip(raw: usize)
    ensures
        (UefiError { status: EfiStatus(raw) }).status.0 == raw,
        raw != 0 ==> EfiStatus(raw).outcome() == Err::<(), UefiError>(
            UefiError { status: EfiStatus(raw) },
        ),
        raw == 0 <==> EfiStatus(raw).outcome() is Ok,
{
}

} // verus!
