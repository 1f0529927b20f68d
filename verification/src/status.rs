//! Mapping of the vendor API's flat status-code space into a typed error
//! taxonomy.
//!
//! Status codes are partitioned into ranges: success (`0x0`), informational
//! (`0x1`, `0x2`: empty / retry), device-state codes (`0x1xxxxxxx`), warnings
//! (`0x4xxxxxxx`) and hard errors (`0x8xxxxxxx`).  Any code outside the known
//! set maps to [`Error::Undocumented`].

use vstd::prelude::*;

verus! {

/// Typed view of a vendor status code other than plain success.
///
/// The first two variants are transient/informational; the `Idle` through
/// `Disconnecting` variants report a device-state conflict; the `Warning*`
/// variants are advisory (the operation succeeded with caveats); the rest are
/// hard errors, with `Undocumented` as the catch-all for unmapped codes.
#[derive(Clone, Copy, Debug, PartialEq, Eq, Structural)]
pub enum Error {
    Empty,
    Retry,

    Idle,
    Connecting,
    Connected,
    Starting,
    Running,
    Stopping,
    Disconnecting,

    Warning,
    WarningValueAdjusted,
    WarningValueDisabled,

    Error,
    ErrorNotInitialized,
    ErrorNotFound,
    ErrorBusy,
    ErrorNotOpen,
    ErrorNotConnected,
    ErrorInvalidConfig,
    ErrorBufferSize,
    ErrorInvalidChannel,
    ErrorInvalidParameter,
    ErrorInvalidSize,
    ErrorMissingPathsFile,
    ErrorValueInvalid,
    ErrorValueMalformed,

    Undocumented,
}

/// The meaning of a vendor status code: `Ok` exactly for `0x0`, otherwise the
/// error each documented code stands for, and `Undocumented` for the rest.
pub open spec fn res_spec(r: u32) -> Result<(), Error> {
    if r == 0x00000000 {
        Ok(())
    } else {
        Err(err_spec(r))
    }
}

/// The error a non-success status code maps to.  For the success code `0x0`
/// (which maps to no error) this yields the catch-all variant, as the code is
/// then outside the set of documented failure codes.
pub open spec fn err_spec(r: u32) -> Error {
    if r == 0x00000001 {
        Error::Empty
    } else if r == 0x00000002 {
        Error::Retry
    } else if r == 0x10000000 {
        Error::Idle
    } else if r == 0x10000001 {
        Error::Connecting
    } else if r == 0x10000002 {
        Error::Connected
    } else if r == 0x10000003 {
        Error::Starting
    } else if r == 0x10000004 {
        Error::Running
    } else if r == 0x10000005 {
        Error::Stopping
    } else if r == 0x10000006 {
        Error::Disconnecting
    } else if r == 0x40000000 {
        Error::Warning
    } else if r == 0x40000001 {
        Error::WarningValueAdjusted
    } else if r == 0x40000002 {
        Error::WarningValueDisabled
    } else if r == 0x80000000 {
        Error::Error
    } else if r == 0x80000001 {
        Error::ErrorNotInitialized
    } else if r == 0x80000002 {
        Error::ErrorNotFound
    } else if r == 0x80000003 {
        Error::ErrorBusy
    } else if r == 0x80000004 {
        Error::ErrorNotOpen
    } else if r == 0x80000005 {
        Error::ErrorNotConnected
    } else if r == 0x80000006 {
        Error::ErrorInvalidConfig
    } else if r == 0x80000007 {
        Error::ErrorBufferSize
    } else if r == 0x80000008 {
        Error::ErrorInvalidChannel
    } else if r == 0x80000009 {
        Error::ErrorInvalidParameter
    } else if r == 0x8000000a {
        Error::ErrorInvalidSize
    } else if r == 0x8000000b {
        Error::ErrorMissingPathsFile
    } else if r == 0x8000000c {
        Error::ErrorValueInvalid
    } else if r == 0x8000000d {
        Error::ErrorValueMalformed
    } else {
        Error::Undocumented
    }
}

/// Translates a raw vendor status code into the typed taxonomy: `Ok(())` for
/// the success code and the matching [`Error`] for every other code.
pub fn res(r: u32) -> (out: Result<(), Error>)
    ensures
        out == res_spec(r),
{
    match r {
        0x00000000 => Ok(()),
        0x00000001 => Err(Error::Empty),
        0x00000002 => Err(Error::Retry),

        0x10000000 => Err(Error::Idle),
        0x10000001 => Err(Error::Connecting),
        0x10000002 => Err(Error::Connected),
        0x10000003 => Err(Error::Starting),
        0x10000004 => Err(Error::Running),
        0x10000005 => Err(Error::Stopping),
        0x10000006 => Err(Error::Disconnecting),

        0x40000000 => Err(Error::Warning),
        0x40000001 => Err(Error::WarningValueAdjusted),
        0x40000002 => Err(Error::WarningValueDisabled),

        0x80000000 => Err(Error::Error),
        0x80000001 => Err(Error::ErrorNotInitialized),
        0x80000002 => Err(Error::ErrorNotFound),
        0x80000003 => Err(Error::ErrorBusy),
        0x80000004 => Err(Error::ErrorNotOpen),
        0x80000005 => Err(Error::ErrorNotConnected),
        0x80000006 => Err(Error::ErrorInvalidConfig),
        0x80000007 => Err(Error::ErrorBufferSize),
        0x80000008 => Err(Error::ErrorInvalidChannel),
        0x80000009 => Err(Error::ErrorInvalidParameter),
        0x8000000a => Err(Error::ErrorInvalidSize),
        0x8000000b => Err(Error::ErrorMissingPathsFile),
        0x8000000c => Err(Error::ErrorValueInvalid),
        0x8000000d => Err(Error::ErrorValueMalformed),
        _ => Err(Error::Undocumented),
    }
}

/// Translates a status code into the error it stands for; the success code
/// itself (which names no failure) falls to the catch-all variant.
pub fn err_of(r: u32) -> (e: Error)
    ensures
        e == err_spec(r),
{
    match res(r) {
        Ok(_) => Error::Undocumented,
        Err(e) => e,
    }
}

} // verus!
