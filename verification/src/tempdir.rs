use vstd::prelude::*;

use crate::error::CompileError;

verus! {

#[verifier::external_type_specification]
#[verifier::external_body]
pub struct ExTempDir(tempfile::TempDir);

/// Relies on tempfile::TempDir::new: creates a fresh temporary directory
/// that is removed when the value is dropped or closed. Creation touches
/// the disk, so failure is possible and surfaces as an ambient I/O error.
#[verifier::external_body]
pub(crate) fn try_temp_dir() -> (r: Result<tempfile::TempDir, CompileError>)
    ensures
        r matches Err(e) ==> e matches CompileError::IO { .. },
{
    match tempfile::TempDir::new() {
        Ok(dir) => Ok(dir),
        Err(e) => Err(CompileError::IO { msg: e.to_string() }),
    }
}

/// Relies on tempfile::TempDir::path: yields where the directory was
/// created. The location is chosen by the system, so nothing is promised
/// of it; callers record the returned string and reason from there.
#[verifier::external_body]
pub(crate) fn temp_dir_path(dir: &tempfile::TempDir) -> String {
    dir.path().to_string_lossy().into_owned()
}

/// Relies on tempfile::TempDir::close: removes the directory and all its
/// contents right away, reporting any filesystem failure, which surfaces as
/// an ambient I/O error.
#[verifier::external_body]
pub(crate) fn close_temp_dir(dir: tempfile::TempDir) -> (r: Result<(), CompileError>)
    ensures
        r matches Err(e) ==> e matches CompileError::IO { .. },
{
    match dir.close() {
        Ok(()) => Ok(()),
        Err(e) => Err(CompileError::IO { msg: e.to_string() }),
    }
}

} // verus!
