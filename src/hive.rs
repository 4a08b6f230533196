//! Registry hives, views, and how a failed registry open is classified.

use vstd::prelude::*;
use crate::dto::ErrorKind;

verus! {

/// The registry hives of a Windows system.
#[derive(Debug, Copy, Clone, PartialEq, Eq, Structural)]
pub enum RegistryHive {
    ClassesRoot,
    CurrentConfig,
    CurrentUser,
    DynData,
    LocalMachine,
    PerformanceData,
    Users,
}

/// The registry view to open (64-bit or 32-bit).
#[derive(Debug, Copy, Clone, PartialEq, Eq, Structural)]
pub enum RegistryHiveType {
    X64,
    X86,
}

/// The system error code for a file or key that does not exist.
pub const ERROR_FILE_NOT_FOUND: i32 = 2;

/// The same condition as a Win32-facility status code (0x80070002).
pub const HRESULT_FILE_NOT_FOUND: i32 = -2147024894;

/// Whether a hive can be opened for reading; the legacy dynamic-data and
/// performance-data hives cannot.
pub fn hive_is_supported(hive: RegistryHive) -> (r: bool)
    ensures
        r == !(hive is DynData || hive is PerformanceData),
{
    match hive {
        RegistryHive::DynData | RegistryHive::PerformanceData => false,
        _ => true,
    }
}

/// A missing key or value is `NotFound`; any other status a backend failure.
pub open spec fn classify_registry_error_spec(code: i32) -> ErrorKind {
    if code == ERROR_FILE_NOT_FOUND || code == HRESULT_FILE_NOT_FOUND {
        ErrorKind::NotFound
    } else {
        ErrorKind::Backend(code)
    }
}

/// The error for a failed registry operation with status `code`: a missing
/// key or value is `NotFound`, anything else a backend failure.
pub fn classify_registry_error(code: i32) -> (r: ErrorKind)
    ensures
        r == classify_registry_error_spec(code),
{
    if code == ERROR_FILE_NOT_FOUND || code == HRESULT_FILE_NOT_FOUND {
        ErrorKind::NotFound
    } else {
        ErrorKind::Backend(code)
    }
}

/// The outcome of opening a hive's root key, from the status of the attempt:
/// `Ok(true)` when it opened, `Ok(false)` when the hive does not exist (not
/// an error), or the failure.
pub fn base_key_outcome(status: Result<(), i32>) -> (r: Result<bool, ErrorKind>)
    ensures
        status is Ok ==> r == Ok::<bool, ErrorKind>(true),
        status matches Err(c) ==> (classify_registry_error_spec(c) is NotFound ==> r == Ok::<bool, ErrorKind>(false)),
        status matches Err(c) ==> (!(classify_registry_error_spec(c) is NotFound) ==> r == Err::<bool, ErrorKind>(classify_registry_error_spec(c))),
{
    match status {
        Ok(()) => Ok(true),
        Err(c) => match classify_registry_error(c) {
            ErrorKind::NotFound => Ok(false),
            e => Err(e),
        },
    }
}

} // verus!
