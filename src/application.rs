//! The application once it runs from its bundle.

use vstd::prelude::*;
use crate::path::{parent, parent_path};
use crate::platform::{MainThreadMarker, NSApplication, NSBundle, Retained};

verus! {

/// The application, including the main bundle and the shared application
/// object of the bundled process.
pub struct Application {
    /// The name of the application, as shown in the Dock and menubar.
    pub name: String,
    /// The bundle identifier of the application, a reverse-DNS string of
    /// ASCII letters and digits, '.' and '-'.
    pub ident: String,
    /// The path to the app bundle from which this process runs. Where the
    /// process already ran from a bundle, this may differ from the directory
    /// in which a bundle would have been generated.
    pub bundle_path: String,
    /// The main bundle of the process.
    pub bundle: Retained<NSBundle>,
    /// The shared application object.
    pub app: Retained<NSApplication>,
}

impl Application {
    /// The application whose executable is at `exe_path`, in the
    /// `Contents/MacOS` directory of its bundle.
    pub fn new(
        name: String,
        ident: String,
        bundle: Retained<NSBundle>,
        exe_path: &str,
        mtm: MainThreadMarker,
    ) -> (r: Self)
        ensures
            r.name == name,
            r.ident == ident,
            r.bundle == bundle,
            r.app == Retained::spec_new(NSApplication),
            r.bundle_path@ == parent_path(parent_path(parent_path(exe_path@))),
    {
        let macos = parent(exe_path);
        let contents = parent(macos.as_str());
        let bundle_path = parent(contents.as_str());
        let app = NSApplication::sharedApplication(mtm);
        Application { name, ident, bundle_path, bundle, app }
    }
}

} // verus!
