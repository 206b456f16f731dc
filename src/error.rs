use vstd::prelude::*;

verus! {

/// The status the OS boundary reports for a call that succeeded.
pub const ERROR_SUCCESS: u32 = 0;

/// The status with which a search reports that it holds no (more) items.
pub const ERROR_NO_MORE_ITEMS: u32 = 259;

/// Errors of the library.
#[derive(Debug, Clone, Copy, PartialEq, Eq, Structural)]
pub enum Error {
    /// An enumeration produced no matching item.
    NotFound,
    /// The operation does not apply to the record's current flags.
    InvalidState,
    /// The OS boundary reported this failure status.
    System(u32),
}

/// Maps the status of a call that returns only a status.
pub fn status_result(status: u32) -> (r: Result<(), Error>)
    ensures
        status == ERROR_SUCCESS ==> r == Ok::<(), Error>(()),
        status != ERROR_SUCCESS ==> r == Err::<(), Error>(Error::System(status)),
{
    if status == ERROR_SUCCESS {
        Ok(())
    } else {
        Err(Error::System(status))
    }
}

/// The OS error type of std, carried through opaque.
#[verifier::external_type_specification]
#[verifier::external_body]
pub struct ExIoError(std::io::Error);

/// Relies on `std::io::Error::last_os_error`: the error the OS last reported
/// on this thread. Nothing is known of it in advance.
pub assume_specification[ std::io::Error::last_os_error ]() -> (r: std::io::Error);

/// Relies on `std::io::Error::raw_os_error`: the OS code the error carries, if any.
pub assume_specification[ std::io::Error::raw_os_error ](e: &std::io::Error) -> (r: Option<i32>);

/// The error the OS last reported on this thread, as a `System` error.
///
/// What the code is depends on what the thread did before; an error that
/// carries no code is reported with the code 0.
pub fn last_error() -> (r: Error)
    ensures
        r is System,
{
    let e = std::io::Error::last_os_error();
    match e.raw_os_error() {
        Some(code) => Error::System(code as u32),
        None => Error::System(0),
    }
}

} // verus!
