//! The failures that an entry point reports.

use vstd::prelude::*;

verus! {

/// A business rule that an entry point found broken.
#[derive(Clone, Copy, Debug, PartialEq, Eq, Structural, PartialOrd, Ord, Hash)]
pub enum Error {
    /// `initialize` was called on an instance that is already initialized.
    AlreadyInitialized,
    /// The operation needs an initialized instance.
    NotInitialized,
    /// `set_owner` was called by an identity that is not the owner.
    NotOwner,
    /// `deposit` named an asset other than the accepted one.
    MismatchingAsset,
}

impl Error {
    /// The number under which a host reports this error.
    pub open spec fn spec_code(self) -> u32 {
        match self {
            Error::AlreadyInitialized => 1,
            Error::NotInitialized => 2,
            Error::NotOwner => 3,
            Error::MismatchingAsset => 4,
        }
    }

    /// The number under which a host reports this error: 1 to 4, in the
    /// order of the variants.
    #[verifier::when_used_as_spec(spec_code)]
    pub fn code(self) -> (c: u32)
        ensures
            c == self.spec_code(),
            1 <= c <= 4,
    {
        match self {
            Error::AlreadyInitialized => 1,
            Error::NotInitialized => 2,
            Error::NotOwner => 3,
            Error::MismatchingAsset => 4,
        }
    }

    /// The error that a host reports under `code`, if there is one.
    pub fn from_code(code: u32) -> (e: Option<Error>)
        ensures
            match e {
                Some(err) => err.spec_code() == code,
                None => code < 1 || code > 4,
            },
    {
        if code == 1 {
            Some(Error::AlreadyInitialized)
        } else if code == 2 {
            Some(Error::NotInitialized)
        } else if code == 3 {
            Some(Error::NotOwner)
        } else if code == 4 {
            Some(Error::MismatchingAsset)
        } else {
            None
        }
    }
}

/// Why an entry point took no effect.
///
/// A refusal by the authorization service and a failure of the transfer
/// service are not business errors: they are kept apart from [`Error`].
#[derive(Clone, Copy, Debug, PartialEq, Eq, Structural)]
pub enum Failure {
    /// The invocation is not authorized to act as the identity it claims.
    Unauthorized,
    /// A business rule was broken.
    Rejected(Error),
    /// The new balance would not fit the balance's range.
    Overflow,
    /// The transfer service did not move the funds.
    TransferFailed,
}

} // verus!
