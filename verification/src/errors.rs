//! The error kinds that the session operations report.

use vstd::prelude::*;

verus! {

/// What can go wrong in a session operation.
#[derive(Clone, Copy, Debug, PartialEq, Eq, Structural)]
pub enum GHDError {
    /// No credential is stored.
    TokenNotFoundError,
    /// A credential is stored, but no user can be resolved from it.
    UserNotSetError,
    /// The remote service rejected the credential.
    BadTokenError,
    /// Any other failure of the remote service or of the transport.
    UnknownError,
    /// The local database failed.
    StorageError,
}

} // verus!
