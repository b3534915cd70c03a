//! The platform layer in its deterministic form: the process's bundle
//! identity is a flag held by a `Platform` value, false until a build is
//! simulated and true after it. Every operation takes that state
//! explicitly, so that independent users never share it.

use vstd::prelude::*;
use crate::application::Application;
use crate::error::BundleError;
use crate::identifier::{is_valid_identifier, valid_identifier};
use crate::install::{InstallDir, text_option};
use crate::path::parent_path;
use crate::trampoline::Trampoline;

verus! {

/// The identifier that the simulated bundle reports.
pub const SIMULATED_IDENTIFIER: &'static str = "org.example.MyApp";

/// Whether the simulated process runs from a bundle.
pub struct Platform {
    bundled: bool,
}

impl View for Platform {
    type V = bool;

    closed spec fn view(&self) -> bool {
        self.bundled
    }
}

impl Platform {
    /// A process that does not run from a bundle.
    pub fn new() -> (r: Platform)
        ensures
            !r@,
    {
        Platform { bundled: false }
    }

    /// A process that runs from a bundle exactly when the identifier that
    /// the OS reported for its main bundle is present and not empty.
    pub fn from_identifier(identifier: Option<String>) -> (r: Platform)
        ensures
            r@ == (text_option(identifier) matches Some(s) && s.len() > 0),
    {
        let bundled = match &identifier {
            Some(s) => s.as_str().unicode_len() > 0,
            None => false,
        };
        Platform { bundled }
    }

    /// A process whose bundle state is what a probe reported.
    pub fn from_probe(bundled: bool) -> (r: Platform)
        ensures
            r@ == bundled,
    {
        Platform { bundled }
    }
}

/// An owned reference to a platform object.
pub struct Retained<T>(T);

impl<T> Retained<T> {
    /// The object referred to.
    pub closed spec fn inner(self) -> T {
        self.0
    }

    /// The reference to `inner`.
    pub closed spec fn spec_new(inner: T) -> Self {
        Retained(inner)
    }

    pub fn new(inner: T) -> (r: Self)
        ensures
            r == Self::spec_new(inner),
            r.inner() == inner,
    {
        Retained(inner)
    }

    /// The object referred to.
    pub fn get(&self) -> (r: &T)
        ensures
            *r == self.inner(),
    {
        &self.0
    }
}

/// The shared application object.
pub struct NSApplication;

#[allow(non_snake_case)]
impl NSApplication {
    /// The application object; only to be had on the main thread. Every
    /// call hands out the same one.
    pub fn sharedApplication(_mtm: MainThreadMarker) -> (r: Retained<Self>)
        ensures
            r == Retained::spec_new(NSApplication),
            r.inner() == NSApplication,
    {
        Retained::new(NSApplication)
    }
}

/// The bundle the process runs from, with the identifier its manifest
/// declares, if any.
pub struct NSBundle {
    identifier: Option<String>,
}

/// The identifier that the main bundle declares, given whether the process
/// runs from a bundle.
pub open spec fn main_bundle_identifier(bundled: bool) -> Option<Seq<char>> {
    if bundled {
        Some(SIMULATED_IDENTIFIER@)
    } else {
        None
    }
}

impl NSBundle {
    /// The identifier the bundle declares, if any.
    pub closed spec fn identifier(self) -> Option<Seq<char>> {
        text_option(self.identifier)
    }

    /// A bundle that declares `identifier`, e.g. as the OS reported it.
    pub fn with_identifier(identifier: Option<String>) -> (r: NSBundle)
        ensures
            r.identifier() == text_option(identifier),
    {
        NSBundle { identifier }
    }
}

#[allow(non_snake_case)]
impl NSBundle {
    /// The main bundle of the process: it declares the simulated
    /// identifier exactly when the process runs from a bundle.
    pub fn mainBundle(platform: &Platform) -> (r: Retained<Self>)
        ensures
            r.inner().identifier() == main_bundle_identifier(platform@),
    {
        let identifier = if platform.bundled {
            Some(SIMULATED_IDENTIFIER.to_owned())
        } else {
            None
        };
        Retained::new(NSBundle { identifier })
    }

    /// The identifier the bundle declares.
    pub fn bundleIdentifier(&self) -> (r: Option<String>)
        ensures
            text_option(r) == self.identifier(),
    {
        self.identifier.clone()
    }
}

/// Proof that the code runs on the main thread.
#[derive(Clone, Copy)]
pub struct MainThreadMarker {
    _main_thread: (),
}

impl MainThreadMarker {
    /// The marker, where the calling thread is the main thread; the
    /// simulated process has only that one.
    pub fn new() -> (r: Option<Self>)
        ensures
            r is Some,
    {
        Some(MainThreadMarker { _main_thread: () })
    }
}

/// The main bundle, where it declares a non-empty identifier: a bundle
/// object alone is no proof that the process runs from a bundle.
pub fn main_bundle_with_identifier(platform: &Platform) -> (r: Option<Retained<NSBundle>>)
    ensures
        r is Some <==> (main_bundle_identifier(platform@) matches Some(id) && id.len() > 0),
        r is Some == platform@,
        r matches Some(b) ==> b.inner().identifier() == main_bundle_identifier(platform@),
{
    proof {
        reveal_strlit("org.example.MyApp");
    }
    let bundle = NSBundle::mainBundle(platform);
    match bundle.get().bundleIdentifier() {
        Some(id) => {
            if id.as_str().unicode_len() > 0 {
                Some(bundle)
            } else {
                None
            }
        },
        None => None,
    }
}

/// Bundles the process described by `trampoline`, whose executable is at
/// `exe_path`. Where it already runs from a bundle, the application is
/// returned and nothing changes; otherwise the build is simulated, and the
/// process reports a bundle from then on. An invalid identifier is refused
/// before anything changes.
pub fn bundle(
    platform: &mut Platform,
    trampoline: &Trampoline,
    location: InstallDir,
    exe_path: &str,
) -> (r: Result<Application, BundleError>)
    ensures
        old(platform)@ ==> r is Ok && final(platform)@ == old(platform)@,
        !old(platform)@ ==> if is_valid_identifier(trampoline@.ident) {
            r is Ok && final(platform)@
        } else {
            r == Err::<Application, BundleError>(BundleError::InvalidIdentifier) && !final(platform)@
        },
        r matches Ok(app) ==> {
            &&& app.name@ == trampoline@.name
            &&& app.ident@ == trampoline@.ident
            &&& app.bundle_path@ == parent_path(parent_path(parent_path(exe_path@)))
            &&& app.bundle.inner().identifier() == main_bundle_identifier(final(platform)@)
            &&& app.bundle.inner().identifier() is Some
        },
{
    let mtm = match MainThreadMarker::new() {
        Some(m) => m,
        None => {
            return Err(BundleError::NotMainThread);
        },
    };
    if !platform.bundled {
        if !valid_identifier(trampoline.ident_str()) {
            return Err(BundleError::InvalidIdentifier);
        }
        platform.bundled = true;
    }
    let bundle = NSBundle::mainBundle(platform);
    Ok(
        Application::new(
            trampoline.name_str().to_owned(),
            trampoline.ident_str().to_owned(),
            bundle,
            exe_path,
            mtm,
        ),
    )
}

} // verus!
