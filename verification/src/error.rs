//! The error values that the library returns and carries through.

use vstd::prelude::*;

verus! {

/// Response codes of the credential store service.
#[derive(Clone, Copy, Debug, PartialEq, Eq, Structural)]
pub enum ResponseCode {
    /// The master key of the user is not unlocked.
    Locked,
    /// The user never set up a lock screen secret.
    Uninitialized,
    /// An unexpected failure inside the service.
    SystemError,
    /// Stored data is incomplete, inconsistent, or failed authentication.
    ValueCorrupted,
    /// Any other code, carried through unchanged.
    Other(i32),
}

/// Error codes of the hardware crypto engine.
#[derive(Clone, Copy, Debug, PartialEq, Eq, Structural)]
pub enum ErrorCode {
    /// The key blob must be upgraded before it can be used.
    KeyRequiresUpgrade,
    /// The engine does not recognise the key blob.
    InvalidKeyBlob,
    /// The caller may not attest device identifiers.
    CannotAttestIds,
    /// Any other code, carried through unchanged.
    Other(i32),
}

/// Everything that can go wrong in this library or in one of its
/// collaborators.
#[derive(Clone, Copy, Debug, PartialEq, Eq, Structural)]
pub enum Error {
    /// A response code of the service.
    Rc(ResponseCode),
    /// An error code of the hardware crypto engine.
    Km(ErrorCode),
    /// A cryptographic primitive failed.
    Crypto,
    /// The persistent store or the legacy importer failed.
    Store,
    /// A call to a remote service failed with this status.
    Binder(i32),
}

impl Error {
    /// The system error of the service.
    pub open spec fn sys_spec() -> Error {
        Error::Rc(ResponseCode::SystemError)
    }

    /// Shorthand for the system error of the service.
    #[verifier::when_used_as_spec(sys_spec)]
    pub fn sys() -> (e: Error)
        ensures
            e == Error::sys_spec(),
    {
        Error::Rc(ResponseCode::SystemError)
    }
}

} // verus!
