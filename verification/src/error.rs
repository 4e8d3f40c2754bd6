use vstd::prelude::*;

verus! {

/// The failure kinds a replication operation can surface.
///
/// Every operating-system failure is reported as [`IoError::NotFound`],
/// [`IoError::PermissionDenied`] or [`IoError::Other`].  The one
/// input-validation failure of the library, a resolved self path without a
/// final filename component, is reported as [`IoError::InvalidInput`] and is
/// never produced by the operating-system calls themselves.
#[derive(Clone, Copy, Debug, PartialEq, Eq, Structural)]
pub enum IoError {
    /// A path that should exist does not.
    NotFound,
    /// The filesystem refused access.
    PermissionDenied,
    /// The resolved self path has no final filename component.
    InvalidInput,
    /// Any other failure of the underlying facilities.
    Other,
}

/// A declaration of the error type of std's I/O facilities, carried through
/// the error conversion below; the library never looks inside a value of it.
#[verifier::external_type_specification]
#[verifier::external_body]
pub struct ExIoError(std::io::Error);

/// A declaration of the errno type of the `nix` crate, carried through the
/// error conversion below; the library never looks inside a value of it.
#[verifier::external_type_specification]
#[verifier::external_body]
pub struct ExErrno(nix::errno::Errno);

/// Relies on `std::io::Error::kind`: maps the two kinds the library
/// distinguishes, and every other kind to `IoError::Other`.
#[verifier::external_body]
pub(crate) fn io_kind(e: &std::io::Error) -> (r: IoError)
    ensures
        r != IoError::InvalidInput,
{
    match e.kind() {
        std::io::ErrorKind::NotFound => IoError::NotFound,
        std::io::ErrorKind::PermissionDenied => IoError::PermissionDenied,
        _ => IoError::Other,
    }
}

/// Relies on the identity of `nix::errno::Errno` values: maps the two
/// errno values the library distinguishes, and every other one to
/// `IoError::Other`.
#[verifier::external_body]
pub(crate) fn errno_kind(e: nix::errno::Errno) -> (r: IoError)
    ensures
        r != IoError::InvalidInput,
{
    match e {
        nix::errno::Errno::ENOENT => IoError::NotFound,
        nix::errno::Errno::EACCES => IoError::PermissionDenied,
        _ => IoError::Other,
    }
}

} // verus!
