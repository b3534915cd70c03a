//! What can keep a bundle from being made before any filesystem work starts.

use vstd::prelude::*;

verus! {

/// A configuration problem found before the filesystem is touched.
#[derive(Clone, Copy, Debug, PartialEq, Eq, Structural)]
pub enum BundleError {
    /// The call was not made on the main thread.
    NotMainThread,
    /// The bundle identifier is empty or holds a character other than an
    /// ASCII letter, a digit, `.` or `-`.
    InvalidIdentifier,
    /// The name, the version or the executable's file name holds a
    /// character that XML 1.0 does not allow, so no manifest can carry it.
    InvalidManifestValue,
    /// The user's `Applications` directory was asked for, and no home
    /// directory is known.
    MissingHomeDirectory,
    /// The path of the running executable has no file name.
    MissingExecutableName,
}

} // verus!
