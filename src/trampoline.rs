//! The relaunch configuration and the plan of the bundle it asks for.

use vstd::prelude::*;
use crate::builder::{
    FsOp, FsStep, Node, bundle_ops, bundle_steps, built_fs, is_file, lemma_bundle_steps_effect,
    lemma_layout_shape, run_steps, steps_of, within,
};
use crate::application::Application;
use crate::error::BundleError;
use crate::install::InstallDir;
use crate::platform::{self, Platform, main_bundle_identifier, main_bundle_with_identifier};
use crate::identifier::{is_valid_identifier, valid_identifier};
use crate::layout::{BundleLayout, LayoutView, bundle_layout, layout_of};
use crate::manifest::{is_xml_text, manifest, manifest_text, valid_xml_text};
use crate::path::{file_name, file_name_of, lemma_file_name_plain, parent_path};

verus! {

/// The version a configuration starts with.
pub const DEFAULT_VERSION: &'static str = "0.1.0";

/// The application relauncher, which is used to build the app bundle, launch
/// it as a subprocess, and then wait for it to exit.  Or if we are already
/// running from within an app bundle, do nothing.
pub struct Trampoline {
    /// The name of the application as shown to the user, and also the name of
    /// the app bundle in the filesystem.
    name: String,
    /// The unique identifier for the application, in reverse DNS format,
    /// e.g. "org.example.MyApp", made only of ASCII letters and digits, '-'
    /// and '.'.
    ident: String,
    /// The version number of the application, in the format
    /// "major.minor.patch", e.g. "1.0.0".
    version: String,
}

/// A configuration, seen as its three strings.
pub struct TrampolineView {
    pub name: Seq<char>,
    pub ident: Seq<char>,
    pub version: Seq<char>,
}

impl View for Trampoline {
    type V = TrampolineView;

    closed spec fn view(&self) -> TrampolineView {
        TrampolineView { name: self.name@, ident: self.ident@, version: self.version@ }
    }
}

/// What a build needs: the bundle's paths, its manifest, and the filesystem
/// operations that make it.
pub struct BundlePlan {
    pub layout: BundleLayout,
    pub manifest: String,
    pub ops: Vec<FsOp>,
}

/// A plan, seen as paths, text and steps.
pub struct PlanView {
    pub layout: LayoutView,
    pub manifest: Seq<char>,
    pub steps: Seq<FsStep>,
}

impl View for BundlePlan {
    type V = PlanView;

    open spec fn view(&self) -> PlanView {
        PlanView { layout: self.layout@, manifest: self.manifest@, steps: steps_of(self.ops@) }
    }
}

/// The plan for configuration `t`, installing under `install_dir` the
/// executable at `exe_path`: refused where the identifier is not valid,
/// where a value of the manifest holds a character XML does not allow, or
/// where the path names no file.
pub open spec fn plan_for(t: TrampolineView, install_dir: Seq<char>, exe_path: Seq<char>) -> Result<
    PlanView,
    BundleError,
> {
    if !is_valid_identifier(t.ident) {
        Err(BundleError::InvalidIdentifier)
    } else if !is_xml_text(t.name) || !is_xml_text(t.version) {
        Err(BundleError::InvalidManifestValue)
    } else {
        match file_name_of(exe_path) {
            None => Err(BundleError::MissingExecutableName),
            Some(exe) => if !is_xml_text(exe) {
                Err(BundleError::InvalidManifestValue)
            } else {
                let layout = layout_of(install_dir, t.name, exe);
                let text = manifest_text(t.name, t.ident, t.version, exe);
                Ok(PlanView { layout, manifest: text, steps: bundle_steps(layout, exe_path, text) })
            },
        }
    }
}

impl Trampoline {
    /// A configuration with the given name and identifier, at the default
    /// version.
    pub fn new(name: &str, ident: &str) -> (r: Self)
        ensures
            r@ == (TrampolineView { name: name@, ident: ident@, version: DEFAULT_VERSION@ }),
    {
        Trampoline { name: name.to_owned(), ident: ident.to_owned(), version: DEFAULT_VERSION.to_owned() }
    }

    /// Set the name of the app bundle.  Overrides value provided to `new()`.
    pub fn name(&mut self, name: &str) -> (r: &mut Self)
        ensures
            r@ == (TrampolineView { name: name@, ..old(self)@ }),
            *final(self) == *final(r),
    {
        self.name = name.to_owned();
        self
    }

    /// Set the app bundle ID.  Overrides value provided to `new()`.
    pub fn ident(&mut self, ident: &str) -> (r: &mut Self)
        ensures
            r@ == (TrampolineView { ident: ident@, ..old(self)@ }),
            *final(self) == *final(r),
    {
        self.ident = ident.to_owned();
        self
    }

    /// Set the app bundle version.  Overrides the default version.
    pub fn version(&mut self, version: &str) -> (r: &mut Self)
        ensures
            r@ == (TrampolineView { version: version@, ..old(self)@ }),
            *final(self) == *final(r),
    {
        self.version = version.to_owned();
        self
    }

    /// The configured name.
    pub fn name_str(&self) -> (r: &str)
        ensures
            r@ == self@.name,
    {
        self.name.as_str()
    }

    /// The configured identifier.
    pub fn ident_str(&self) -> (r: &str)
        ensures
            r@ == self@.ident,
    {
        self.ident.as_str()
    }

    /// Checks if the running process is an application bundle.
    pub fn is_bundled(platform: &Platform) -> (r: bool)
        ensures
            r == platform@,
            r <==> (main_bundle_identifier(platform@) matches Some(id) && id.len() > 0),
    {
        main_bundle_with_identifier(platform).is_some()
    }

    /// Bundles this application; see `platform::bundle`.
    pub fn bundle(&self, platform: &mut Platform, location: InstallDir, exe_path: &str) -> (r:
        Result<Application, BundleError>)
        ensures
            old(platform)@ ==> r is Ok && final(platform)@ == old(platform)@,
            !old(platform)@ ==> if is_valid_identifier(self@.ident) {
                r is Ok && final(platform)@
            } else {
                r == Err::<Application, BundleError>(BundleError::InvalidIdentifier) && !final(platform)@
            },
            r matches Ok(app) ==> {
                &&& app.name@ == self@.name
                &&& app.ident@ == self@.ident
                &&& app.bundle_path@ == parent_path(parent_path(parent_path(exe_path@)))
                &&& app.bundle.inner().identifier() == main_bundle_identifier(final(platform)@)
                &&& app.bundle.inner().identifier() is Some
            },
    {
        platform::bundle(platform, self, location, exe_path)
    }

    /// The plan of the bundle for this configuration under `install_dir`,
    /// for the executable at `exe_path`.
    pub fn plan(&self, install_dir: &str, exe_path: &str) -> (r: Result<BundlePlan, BundleError>)
        ensures
            match r {
                Ok(p) => plan_for(self@, install_dir@, exe_path@) == Ok::<PlanView, BundleError>(p@),
                Err(e) => plan_for(self@, install_dir@, exe_path@) == Err::<PlanView, BundleError>(e),
            },
    {
        if !valid_identifier(self.ident.as_str()) {
            return Err(BundleError::InvalidIdentifier);
        }
        if !valid_xml_text(self.name.as_str()) || !valid_xml_text(self.version.as_str()) {
            return Err(BundleError::InvalidManifestValue);
        }
        let exe = match file_name(exe_path) {
            None => {
                return Err(BundleError::MissingExecutableName);
            },
            Some(exe) => exe,
        };
        if !valid_xml_text(exe.as_str()) {
            return Err(BundleError::InvalidManifestValue);
        }
        let layout = bundle_layout(install_dir, self.name.as_str(), exe.as_str());
        let text = manifest(
            self.name.as_str(),
            self.ident.as_str(),
            self.version.as_str(),
            exe.as_str(),
        );
        let ops = bundle_ops(&layout, exe_path, text.clone());
        Ok(BundlePlan { layout, manifest: text, ops })
    }
}

/// Carrying out a plan succeeds exactly when the executable is a file
/// outside the bundle directory and no file stands at the bundle's path. After a successful build, the bundle
/// directory holds exactly `<name>.app`, `Contents`, `Contents/MacOS`,
/// `Contents/Resources` (directories), `Contents/MacOS/<exe>` (the bytes of
/// the executable) and `Contents/Info.plist` (the manifest), and everything
/// outside it is as it was.
pub proof fn lemma_build_layout_exact(
    t: TrampolineView,
    install_dir: Seq<char>,
    exe_path: Seq<char>,
    fs: Map<Seq<char>, Node>,
)
    requires
        plan_for(t, install_dir, exe_path) is Ok,
    ensures
        ({
            let plan = plan_for(t, install_dir, exe_path)->Ok_0;
            let l = plan.layout;
            let r = run_steps(fs, plan.steps);
            &&& r is Some <==> is_file(fs, exe_path) && !within(exe_path, l.bundle) && !is_file(
                fs,
                l.bundle,
            )
            &&& r is Some ==> {
                let built = r->0;
                &&& forall|p: Seq<char>|
                    within(p, l.bundle) ==> (built.contains_key(p) <==> (p == l.bundle || p
                        == l.contents || p == l.macos || p == l.resources || p == l.executable || p
                        == l.info_plist))
                &&& built[l.bundle] == Node::Directory
                &&& built[l.contents] == Node::Directory
                &&& built[l.macos] == Node::Directory
                &&& built[l.resources] == Node::Directory
                &&& built[l.executable] == fs[exe_path]
                &&& built[l.info_plist] == Node::Text(plan.manifest)
                &&& forall|p: Seq<char>|
                    !within(p, l.bundle) ==> built.contains_key(p) == fs.contains_key(p) && (
                    fs.contains_key(p) ==> built[p] == fs[p])
            }
        }),
{
    let exe = file_name_of(exe_path)->0;
    lemma_file_name_plain(exe_path);
    lemma_layout_shape(install_dir, t.name, exe);
    let plan = plan_for(t, install_dir, exe_path)->Ok_0;
    lemma_bundle_steps_effect(fs, install_dir, t.name, exe, exe_path, plan.manifest);
}

/// Building twice in a row with the same configuration, install directory
/// and executable: the second build succeeds although the bundle exists,
/// and leaves the filesystem exactly as the first one left it.
pub proof fn lemma_rebuild_idempotent(
    t: TrampolineView,
    install_dir: Seq<char>,
    exe_path: Seq<char>,
    fs: Map<Seq<char>, Node>,
)
    requires
        plan_for(t, install_dir, exe_path) is Ok,
        run_steps(fs, plan_for(t, install_dir, exe_path)->Ok_0.steps) is Some,
    ensures
        ({
            let steps = plan_for(t, install_dir, exe_path)->Ok_0.steps;
            run_steps(run_steps(fs, steps)->0, steps) == run_steps(fs, steps)
        }),
{
    let exe = file_name_of(exe_path)->0;
    lemma_file_name_plain(exe_path);
    lemma_layout_shape(install_dir, t.name, exe);
    let plan = plan_for(t, install_dir, exe_path)->Ok_0;
    let l = plan.layout;
    lemma_bundle_steps_effect(fs, install_dir, t.name, exe, exe_path, plan.manifest);
    let built = built_fs(fs, l, fs[exe_path], plan.manifest);
    assert(built[exe_path] == fs[exe_path]);
    lemma_bundle_steps_effect(built, install_dir, t.name, exe, exe_path, plan.manifest);
    let again = built_fs(built, l, built[exe_path], plan.manifest);
    assert(again =~= built);
}

} // verus!
