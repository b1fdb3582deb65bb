//! Directory resolution and the database-file locator: maps the fixed
//! application identity triple to the platform data directory, creates it
//! when missing, and builds the full database file path. In first-time
//! mode a missing file is reported as the `FirstTime` signal instead of
//! being created.

use vstd::prelude::*;
use vstd::string::StringExecFns;

use crate::errors::{ControlledErrors, RepositoryError};

verus! {

/// Declares `directories::ProjectDirs`, the resolved per-platform
/// directory set for the application identity triple.
#[verifier::external_type_specification]
#[verifier::external_body]
pub struct ExProjectDirs(directories::ProjectDirs);

/// Relies on `directories::ProjectDirs::from`: computes the platform
/// project directories for an identity triple, or `None` when the platform
/// cannot produce one (no determinable home directory).
#[verifier::external_body]
fn project_dirs_from(qualifier: &str, organization: &str, application: &str) -> (r: Option<
    directories::ProjectDirs,
>) {
    directories::ProjectDirs::from(qualifier, organization, application)
}

/// Relies on `directories::ProjectDirs::data_dir`: the project's data
/// directory path; `None` when `str::to_str` finds it not representable as
/// a native string.
#[verifier::external_body]
fn data_dir_string(dirs: &directories::ProjectDirs) -> (r: Option<String>) {
    match dirs.data_dir().to_str() {
        Some(s) => Some(s.to_string()),
        None => None,
    }
}

/// Relies on `std::path::Path::is_dir`: whether the path names an existing
/// directory on disk.
#[verifier::external_body]
fn path_is_dir(path: &String) -> (r: bool) {
    std::path::Path::new(path.as_str()).is_dir()
}

/// Relies on `std::path::Path::is_file`: whether the path names an
/// existing regular file on disk.
#[verifier::external_body]
fn path_is_file(path: &String) -> (r: bool) {
    std::path::Path::new(path.as_str()).is_file()
}

/// Relies on `fs_err::create_dir_all`: creates the directory and all of
/// its missing parents; a failure is carried as its message.
#[verifier::external_body]
fn create_dir_all_checked(path: &String) -> (r: Result<(), RepositoryError>)
    ensures
        r matches Err(e) ==> e matches RepositoryError::IOError(_),
{
    match fs_err::create_dir_all(path.as_str()) {
        Ok(()) => Ok(()),
        Err(e) => Err(RepositoryError::IOError(format!("{}", e))),
    }
}

/// The full database file path under a data directory: the directory, a
/// separator, and the fixed file name.
pub open spec fn database_path_of(dir: Seq<char>) -> Seq<char> {
    dir + "/"@ + "clickmate.db"@
}

/// Builds the database file path under `data_dir`.
fn build_database_path(data_dir: &String) -> (r: String)
    ensures
        r@ == database_path_of(data_dir@),
{
    let mut path = data_dir.clone();
    path.append("/");
    path.append("clickmate.db");
    path
}

/// Locates the database file under a caller-supplied data directory,
/// creating the directory (never the file) when missing. With
/// `for_first_time` set, a missing file is the `FirstTime` signal; without
/// it, the file need not exist yet.
pub fn check_database_file_in(data_dir: &String, for_first_time: bool) -> (r: Result<
    String,
    RepositoryError,
>)
    ensures
        r matches Ok(p) ==> p@ == database_path_of(data_dir@),
        r matches Err(e) ==> (e matches RepositoryError::IOError(_) || e matches RepositoryError::ControlledError(
            ControlledErrors::FirstTime,
        )),
        r matches Err(RepositoryError::ControlledError(c)) ==> c == ControlledErrors::FirstTime
            && for_first_time,
{
    if !path_is_dir(data_dir) {
        match create_dir_all_checked(data_dir) {
            Ok(()) => (),
            Err(e) => {
                return Err(e);
            },
        }
    }
    let database_file = build_database_path(data_dir);
    if !path_is_file(&database_file) && for_first_time {
        return Err(RepositoryError::ControlledError(ControlledErrors::FirstTime));
    }
    Ok(database_file)
}

/// Locates the database file under the platform data directory for the
/// fixed application identity triple, creating the directory (never the
/// file) when missing. Fails with `NoProjectDirectory` when the platform
/// cannot resolve a directory, with `NoDataDirectory` when the resolved
/// path is not representable natively, and, in first-time mode only, with
/// the `FirstTime` signal when the file does not exist yet.
pub fn check_database_file(for_first_time: &bool) -> (r: Result<String, RepositoryError>)
    ensures
        r matches Ok(p) ==> exists|d: Seq<char>| p@ == database_path_of(d),
        r matches Err(e) ==> !(e matches RepositoryError::SqliteError(_)),
        r matches Err(RepositoryError::ControlledError(c)) ==> (c == ControlledErrors::NoProjectDirectory
            || c == ControlledErrors::NoDataDirectory || (c == ControlledErrors::FirstTime
            && *for_first_time)),
{
    let dirs = match project_dirs_from("com", "clickmate", "clickmate") {
        Some(d) => d,
        None => {
            return Err(RepositoryError::ControlledError(ControlledErrors::NoProjectDirectory));
        },
    };
    let data_dir = match data_dir_string(&dirs) {
        Some(s) => s,
        None => {
            return Err(RepositoryError::ControlledError(ControlledErrors::NoDataDirectory));
        },
    };
    check_database_file_in(&data_dir, *for_first_time)
}

} // verus!
