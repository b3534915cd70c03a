//! Where the bundle is put.

use vstd::prelude::*;
use crate::error::BundleError;
use crate::path::{join, join_path};

verus! {

/// Where to save the generated app bundle.
#[derive(Clone, Debug)]
pub enum InstallDir {
    /// Save the app bundle in a system-defined temporary directory.
    Temp,
    /// Save the app bundle in the system-wide `Applications` directory.
    SystemApplications,
    /// Save the app bundle in the user-specific `Applications` directory.
    UserApplications,
    /// Save the app bundle in a directory chosen by the caller, given in
    /// canonical form.
    Custom(String),
}

/// A result that carries a path, seen as its characters.
pub open spec fn path_result(r: Result<String, BundleError>) -> Result<Seq<char>, BundleError> {
    match r {
        Ok(s) => Ok(s@),
        Err(e) => Err(e),
    }
}

/// An optional string, seen as its characters.
pub open spec fn text_option(o: Option<String>) -> Option<Seq<char>> {
    match o {
        Some(s) => Some(s@),
        None => None,
    }
}

/// The directory that `location` stands for, given the system's temporary
/// directory and the user's home directory, if one is known.
pub open spec fn install_dir_for(
    location: InstallDir,
    temp_dir: Seq<char>,
    home_dir: Option<Seq<char>>,
) -> Result<Seq<char>, BundleError> {
    match location {
        InstallDir::Temp => Ok(temp_dir),
        InstallDir::SystemApplications => Ok("/Applications"@),
        InstallDir::UserApplications => match home_dir {
            Some(h) => Ok(join_path(h, "Applications"@)),
            None => Err(BundleError::MissingHomeDirectory),
        },
        InstallDir::Custom(p) => Ok(p@),
    }
}

/// Relies on `dirs::home_dir` for the current user's home directory. What it
/// finds depends on the environment and the system's user records, so
/// nothing is stated of it.
#[verifier::external_body]
fn home_dir() -> (r: Option<String>) {
    dirs::home_dir().map(|p| p.to_string_lossy().into_owned())
}

/// The directory that `location` stands for, given the temporary directory
/// and what is known of the home directory.
pub fn resolve_install_dir(location: &InstallDir, temp_dir: &str, home_dir: Option<String>) -> (r:
    Result<String, BundleError>)
    ensures
        path_result(r) == install_dir_for(*location, temp_dir@, text_option(home_dir)),
{
    match location {
        InstallDir::Temp => Ok(temp_dir.to_owned()),
        InstallDir::SystemApplications => Ok("/Applications".to_owned()),
        InstallDir::UserApplications => match home_dir {
            Some(h) => Ok(join(h.as_str(), "Applications")),
            None => Err(BundleError::MissingHomeDirectory),
        },
        InstallDir::Custom(p) => Ok(p.clone()),
    }
}

impl InstallDir {
    /// The directory that this location stands for; the user's home
    /// directory is looked up where it is needed.
    pub fn resolve(&self, temp_dir: &str) -> (r: Result<String, BundleError>)
        ensures
            !(*self is UserApplications) ==> path_result(r) == install_dir_for(
                *self,
                temp_dir@,
                None,
            ),
            exists|h: Option<Seq<char>>| path_result(r) == install_dir_for(*self, temp_dir@, h),
    {
        let home = match self {
            InstallDir::UserApplications => home_dir(),
            _ => None,
        };
        let r = resolve_install_dir(self, temp_dir, home);
        assert(path_result(r) == install_dir_for(*self, temp_dir@, text_option(home)));
        r
    }
}

} // verus!
