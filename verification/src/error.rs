//! The errors that plugins and hosts report, and the check that a host
//! makes of a plugin's declaration before it uses the plugin.

use vstd::prelude::*;

verus! {

/// `libloading::Error`, the error of loading a library or one of its
/// symbols, carried as it is: nothing is assumed of its values.
#[verifier::external_type_specification]
#[verifier::external_body]
pub struct ExLibloadingError(libloading::Error);

/// What a plugin or the host reports when something fails.
#[derive(Debug)]
pub enum DuskError {
    /// Loading the plugin library failed
    LoadingError(libloading::Error),
    /// Importing the plugin failed
    ImportError(String),
    /// An argument of a wrong type was received
    TypeError(String),
    /// An argument of a wrong value was received
    ValueError(String),
    /// An OS error occurred
    OsError(String),
    /// Some value check failed
    AssertionError(String),
    /// Index out of bounds
    IndexError(String),
    /// Division by zero was attempted
    ZeroDivisionError(String),
    /// Out of memory
    OverflowError(String),
    /// The called function is not implemented
    NotImplementedError(String),
    /// Another error occurred at run time
    RuntimeError(String),
}

/// The message of the error returned when the compiler versions differ.
pub open spec fn compiler_mismatch_message() -> Seq<char> {
    "Compiler version mismatch"@
}

/// The message of the error returned when the API versions differ.
pub open spec fn api_mismatch_message() -> Seq<char> {
    "Dusk API version mismatch"@
}

/// Checks that a plugin was built with the host's compiler version and
/// against the host's API version.
///
/// A plugin built otherwise may be laid out differently from what the host
/// expects, so it is refused with an `ImportError`; the compiler version is
/// checked first.
pub fn check_compatibility(
    rustc_version: &String,
    api_version: &String,
    host_rustc_version: &String,
    host_api_version: &String,
) -> (r: Result<(), DuskError>)
    ensures
        rustc_version@ != host_rustc_version@ ==> (r matches Err(DuskError::ImportError(m))
            && m@ == compiler_mismatch_message()),
        rustc_version@ == host_rustc_version@ && api_version@ != host_api_version@ ==> (
        r matches Err(DuskError::ImportError(m)) && m@ == api_mismatch_message()),
        rustc_version@ == host_rustc_version@ && api_version@ == host_api_version@ ==> r is Ok,
{
    if !rustc_version.eq(host_rustc_version) {
        return Err(DuskError::ImportError("Compiler version mismatch".to_owned()));
    }
    if !api_version.eq(host_api_version) {
        return Err(DuskError::ImportError("Dusk API version mismatch".to_owned()));
    }
    Ok(())
}

} // verus!
