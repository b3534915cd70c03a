//! The fixed shape of an application bundle:
//! `<name>.app/Contents/{MacOS/<exe>, Resources/, Info.plist}`.

use vstd::prelude::*;
use crate::path::{join, join_path};

verus! {

/// The paths of a bundle, seen as their characters.
pub struct LayoutView {
    pub bundle: Seq<char>,
    pub contents: Seq<char>,
    pub macos: Seq<char>,
    pub resources: Seq<char>,
    pub info_plist: Seq<char>,
    pub executable: Seq<char>,
}

/// The paths of a bundle on disk.
#[derive(Clone, Debug, PartialEq, Eq)]
pub struct BundleLayout {
    /// `<install dir>/<name>.app`
    pub bundle: String,
    /// `<bundle>/Contents`
    pub contents: String,
    /// `<bundle>/Contents/MacOS`, which holds the executable.
    pub macos: String,
    /// `<bundle>/Contents/Resources`, reserved.
    pub resources: String,
    /// `<bundle>/Contents/Info.plist`, the manifest.
    pub info_plist: String,
    /// `<bundle>/Contents/MacOS/<exe>`, the copied executable.
    pub executable: String,
}

impl View for BundleLayout {
    type V = LayoutView;

    open spec fn view(&self) -> LayoutView {
        LayoutView {
            bundle: self.bundle@,
            contents: self.contents@,
            macos: self.macos@,
            resources: self.resources@,
            info_plist: self.info_plist@,
            executable: self.executable@,
        }
    }
}

/// The bundle directory for an application called `name`.
pub open spec fn bundle_dir_for(install_dir: Seq<char>, name: Seq<char>) -> Seq<char> {
    join_path(install_dir, name + ".app"@)
}

/// The layout of the bundle of `name` under `install_dir`, whose
/// executable is called `exe_name`.
pub open spec fn layout_of(install_dir: Seq<char>, name: Seq<char>, exe_name: Seq<char>) -> LayoutView {
    let bundle = bundle_dir_for(install_dir, name);
    let contents = join_path(bundle, "Contents"@);
    let macos = join_path(contents, "MacOS"@);
    LayoutView {
        bundle,
        contents,
        macos,
        resources: join_path(contents, "Resources"@),
        info_plist: join_path(contents, "Info.plist"@),
        executable: join_path(macos, exe_name),
    }
}

/// The paths of the bundle of `name` under `install_dir`.
pub fn bundle_layout(install_dir: &str, name: &str, exe_name: &str) -> (r: BundleLayout)
    ensures
        r@ == layout_of(install_dir@, name@, exe_name@),
{
    let folder = String::from_str(name).concat(".app");
    let bundle = join(install_dir, folder.as_str());
    let contents = join(bundle.as_str(), "Contents");
    let macos = join(contents.as_str(), "MacOS");
    let resources = join(contents.as_str(), "Resources");
    let info_plist = join(contents.as_str(), "Info.plist");
    let executable = join(macos.as_str(), exe_name);
    BundleLayout { bundle, contents, macos, resources, info_plist, executable }
}

} // verus!
