use relaunch::{Platform, Trampoline};

#[test]
fn null() {
    // A process that has not been through a build does not run from a bundle.
    assert!(!Trampoline::is_bundled(&Platform::new()));
}
