use relaunch::builder::FsOp;
use relaunch::identifier::valid_identifier;
use relaunch::install::resolve_install_dir;
use relaunch::manifest::manifest;
use relaunch::path::{file_name, join, parent};
use relaunch::relaunch::{child_exit_code, next_step, Action, Event, Phase};
use relaunch::trampoline::DEFAULT_VERSION;
use relaunch::{
    BundleError, InstallDir, MainThreadMarker, NSApplication, NSBundle, Platform, Retained, Trampoline,
};

const FOO_MANIFEST: &str = "<?xml version=\"1.0\" encoding=\"UTF-8\"?>
<!DOCTYPE plist PUBLIC \"-//Apple//DTD PLIST 1.0//EN\" \"http://www.apple.com/DTDs/PropertyList-1.0.dtd\">
<plist version=\"1.0\">
<dict>
\t<key>CFBundleName</key>
\t<string>Foo</string>
\t<key>CFBundleDisplayName</key>
\t<string>Foo</string>
\t<key>CFBundleIdentifier</key>
\t<string>org.example.Foo</string>
\t<key>CFBundleExecutable</key>
\t<string>foo</string>
\t<key>CFBundleShortVersionString</key>
\t<string>1.2.3</string>
\t<key>CFBundleSupportedPlatforms</key>
\t<array>
\t\t<string>MacOSX</string>
\t</array>
\t<key>CFBundleVersion</key>
\t<string>1.2.3</string>
\t<key>NSPrincipalClass</key>
\t<string>NSApplication</string>
\t<key>NSHighResolutionCapable</key>
\t<true/>
\t<key>CFBundleInfoDictionaryVersion</key>
\t<string>6.0</string>
\t<key>CFBundlePackageType</key>
\t<string>APPL</string>
\t<key>CFBundleSignature</key>
\t<string>????</string>
\t<key>LSMinimumSystemVersion</key>
\t<string>10.10.0</string>
</dict>
</plist>
";

fn foo() -> Trampoline {
    let mut t = Trampoline::new("Foo", "org.example.Foo");
    t.version("1.2.3");
    t
}

#[test]
fn manifest_holds_configured_and_fixed_values() {
    let plan = foo().plan("/tmp", "/usr/local/bin/foo").unwrap();
    assert_eq!(plan.manifest, FOO_MANIFEST);
    assert!(plan.manifest.contains("<key>CFBundleName</key>\n\t<string>Foo</string>"));
    assert!(plan
        .manifest
        .contains("<key>CFBundleIdentifier</key>\n\t<string>org.example.Foo</string>"));
    assert!(plan
        .manifest
        .contains("<key>CFBundleShortVersionString</key>\n\t<string>1.2.3</string>"));
    assert!(plan.manifest.contains("<key>CFBundleVersion</key>\n\t<string>1.2.3</string>"));
}

#[test]
fn manifest_function_matches_plan() {
    assert_eq!(manifest("Foo", "org.example.Foo", "1.2.3", "foo"), FOO_MANIFEST);
}

#[test]
fn layout_is_exact() {
    let plan = foo().plan("/tmp", "/usr/local/bin/foo").unwrap();
    let l = &plan.layout;
    assert_eq!(l.bundle, "/tmp/Foo.app");
    assert_eq!(l.contents, "/tmp/Foo.app/Contents");
    assert_eq!(l.macos, "/tmp/Foo.app/Contents/MacOS");
    assert_eq!(l.resources, "/tmp/Foo.app/Contents/Resources");
    assert_eq!(l.info_plist, "/tmp/Foo.app/Contents/Info.plist");
    assert_eq!(l.executable, "/tmp/Foo.app/Contents/MacOS/foo");
}

#[test]
fn build_operations_remove_then_rebuild() {
    let plan = foo().plan("/tmp/", "/usr/local/bin/foo").unwrap();
    let expected = vec![
        FsOp::RemoveTree("/tmp/Foo.app".to_string()),
        FsOp::CreateDir("/tmp/Foo.app".to_string()),
        FsOp::CreateDir("/tmp/Foo.app/Contents".to_string()),
        FsOp::CreateDir("/tmp/Foo.app/Contents/MacOS".to_string()),
        FsOp::CreateDir("/tmp/Foo.app/Contents/Resources".to_string()),
        FsOp::CopyFile(
            "/usr/local/bin/foo".to_string(),
            "/tmp/Foo.app/Contents/MacOS/foo".to_string(),
        ),
        FsOp::WriteFile(
            "/tmp/Foo.app/Contents/Info.plist".to_string(),
            FOO_MANIFEST.to_string(),
        ),
    ];
    assert_eq!(plan.ops, expected);
}

#[test]
fn planning_twice_gives_the_same_bundle() {
    let t = foo();
    let first = t.plan("/tmp", "/usr/local/bin/foo").unwrap();
    let second = t.plan("/tmp", "/usr/local/bin/foo").unwrap();
    assert_eq!(first.layout, second.layout);
    assert_eq!(first.manifest, second.manifest);
    assert_eq!(first.ops, second.ops);
}

#[test]
fn invalid_identifier_is_refused() {
    for ident in ["", "org example", "org_example.Foo", "örg.example"] {
        let t = Trampoline::new("Foo", ident);
        assert_eq!(
            t.plan("/tmp", "/usr/local/bin/foo").err(),
            Some(BundleError::InvalidIdentifier)
        );
    }
    assert!(valid_identifier("com.github.maaku-relauncher.Test1"));
    assert!(!valid_identifier("a/b"));
}

#[test]
fn executable_without_name_is_refused() {
    assert_eq!(
        foo().plan("/tmp", "/usr/local/bin/").err(),
        Some(BundleError::MissingExecutableName)
    );
}

#[test]
fn builders_override_fields() {
    let mut t = Trampoline::new("A", "org.example.A");
    t.name("Bar").ident("org.example.Bar").version("2.0.0");
    let plan = t.plan("/opt", "/bin/bar").unwrap();
    assert_eq!(plan.layout.bundle, "/opt/Bar.app");
    assert_eq!(plan.manifest, manifest("Bar", "org.example.Bar", "2.0.0", "bar"));
}

#[test]
fn default_version_is_used() {
    let plan = Trampoline::new("A", "org.example.A").plan("/opt", "/bin/a").unwrap();
    assert_eq!(plan.manifest, manifest("A", "org.example.A", DEFAULT_VERSION, "a"));
    assert_eq!(DEFAULT_VERSION, "0.1.0");
}

#[test]
fn paths_join_like_pathbuf() {
    assert_eq!(join("/tmp", "x"), "/tmp/x");
    assert_eq!(join("/tmp/", "x"), "/tmp/x");
    assert_eq!(join("", "x"), "x");
    assert_eq!(join("/tmp", "/abs"), "/abs");
}

#[test]
fn parents_and_file_names() {
    assert_eq!(parent("/a/b/c"), "/a/b");
    assert_eq!(parent("/a"), "/");
    assert_eq!(parent("a"), "");
    assert_eq!(file_name("/usr/bin/foo"), Some("foo".to_string()));
    assert_eq!(file_name("foo"), Some("foo".to_string()));
    assert_eq!(file_name("/usr/bin/"), None);
    assert_eq!(file_name(""), None);
}

#[test]
fn install_dirs_resolve() {
    let home = Some("/Users/me".to_string());
    assert_eq!(
        resolve_install_dir(&InstallDir::Temp, "/var/tmp", home.clone()),
        Ok("/var/tmp".to_string())
    );
    assert_eq!(
        resolve_install_dir(&InstallDir::SystemApplications, "/var/tmp", home.clone()),
        Ok("/Applications".to_string())
    );
    assert_eq!(
        resolve_install_dir(&InstallDir::UserApplications, "/var/tmp", home.clone()),
        Ok("/Users/me/Applications".to_string())
    );
    assert_eq!(
        resolve_install_dir(&InstallDir::UserApplications, "/var/tmp", None),
        Err(BundleError::MissingHomeDirectory)
    );
    assert_eq!(
        resolve_install_dir(&InstallDir::Custom("/srv/apps".to_string()), "/var/tmp", None),
        Ok("/srv/apps".to_string())
    );
}

#[test]
fn user_applications_lie_in_a_home_directory() {
    match InstallDir::UserApplications.resolve("/var/tmp") {
        Ok(dir) => {
            assert!(dir.ends_with("/Applications"));
            assert!(dir.len() > "/Applications".len());
        }
        Err(e) => assert_eq!(e, BundleError::MissingHomeDirectory),
    }
    assert_eq!(InstallDir::Temp.resolve("/var/tmp"), Ok("/var/tmp".to_string()));
}

#[test]
fn child_exit_codes_propagate() {
    assert_eq!(child_exit_code(Some(7)), 7);
    assert_eq!(child_exit_code(Some(0)), 0);
    assert_eq!(child_exit_code(None), 125);
}

#[test]
fn relaunch_runs_to_the_child_exit_code() {
    let (p, a) = next_step(Phase::Unchecked, Event::Probed(false));
    assert_eq!((p, a), (Phase::NeedsBuild, Action::BuildBundle));
    let (p, a) = next_step(p, Event::BuildFinished(true));
    assert_eq!((p, a), (Phase::Built, Action::SpawnChild));
    let (p, a) = next_step(p, Event::SpawnFinished(true));
    assert_eq!((p, a), (Phase::Relaunching, Action::WaitForChild));
    let (p, a) = next_step(p, Event::ChildExited(Some(7)));
    assert_eq!((p, a), (Phase::Exited, Action::ExitProcess(7)));
    let (_, a) = next_step(Phase::Relaunching, Event::ChildExited(None));
    assert_eq!(a, Action::ExitProcess(125));
}

#[test]
fn relaunch_failures_are_reported() {
    assert_eq!(
        next_step(Phase::NeedsBuild, Event::BuildFinished(false)),
        (Phase::Failed, Action::ReportError)
    );
    assert_eq!(
        next_step(Phase::Built, Event::SpawnFinished(false)),
        (Phase::Failed, Action::ReportError)
    );
    assert_eq!(
        next_step(Phase::Relaunching, Event::WaitFailed),
        (Phase::Failed, Action::ReportError)
    );
}

#[test]
fn bundled_process_never_builds() {
    let (p, a) = next_step(Phase::Unchecked, Event::Probed(true));
    assert_eq!((p, a), (Phase::AlreadyBundled, Action::ReturnApplication));
    for e in [
        Event::Probed(false),
        Event::BuildFinished(true),
        Event::SpawnFinished(true),
        Event::ChildExited(Some(1)),
    ] {
        assert_eq!(next_step(p, e), (Phase::AlreadyBundled, Action::Nothing));
    }
}

#[test]
fn simulated_bundle_flips_the_detector() {
    let mut platform = Platform::new();
    let t = foo();
    let app = t
        .bundle(&mut platform, InstallDir::Temp, "/tmp/Foo.app/Contents/MacOS/foo")
        .unwrap();
    assert!(Trampoline::is_bundled(&platform));
    assert_eq!(app.name, "Foo");
    assert_eq!(app.ident, "org.example.Foo");
    assert_eq!(app.bundle_path, "/tmp/Foo.app");
    assert!(app.bundle.get().bundleIdentifier().is_some());
    // Bundling again from a bundled process changes nothing.
    let again = relaunch::bundle(&mut platform, &t, InstallDir::Temp, "/x/B.app/Contents/MacOS/b")
        .unwrap();
    assert!(Trampoline::is_bundled(&platform));
    assert_eq!(again.bundle_path, "/x/B.app");
}

#[test]
fn simulated_bundle_refuses_bad_identifier() {
    let mut platform = Platform::new();
    let t = Trampoline::new("Foo", "bad id");
    let r = t.bundle(&mut platform, InstallDir::Temp, "/tmp/foo");
    assert_eq!(r.err(), Some(BundleError::InvalidIdentifier));
    assert!(!Trampoline::is_bundled(&platform));
}

#[test]
fn platform_objects_report_bundle_state() {
    let platform = Platform::new();
    assert!(NSBundle::mainBundle(&platform).get().bundleIdentifier().is_none());
    let mtm = MainThreadMarker::new().unwrap();
    let _app = NSApplication::sharedApplication(mtm);
    assert_eq!(*Retained::new(5u8).get(), 5);
}

#[test]
fn manifest_values_are_escaped() {
    let text = manifest("A&B <x>", "org.example.AB", "1.0>", "a&b");
    assert!(text.contains("\t<key>CFBundleName</key>\n\t<string>A&amp;B &lt;x&gt;</string>\n"));
    assert!(text.contains("\t<key>CFBundleExecutable</key>\n\t<string>a&amp;b</string>\n"));
    assert!(text.contains("\t<key>CFBundleVersion</key>\n\t<string>1.0&gt;</string>\n"));
    assert!(!text.contains("A&B"));
}

#[test]
fn escaping_keeps_other_characters() {
    let mut out = String::from("x");
    relaunch::manifest::push_escaped(&mut out, "é.1-\"'");
    assert_eq!(out, "xé.1-\"'");
}

#[test]
fn main_bundle_reports_simulated_identifier() {
    let bundled = Platform::from_probe(true);
    assert!(Trampoline::is_bundled(&bundled));
    assert_eq!(
        NSBundle::mainBundle(&bundled).get().bundleIdentifier(),
        Some(relaunch::platform::SIMULATED_IDENTIFIER.to_string())
    );
    assert!(!Trampoline::is_bundled(&Platform::from_probe(false)));
    let found = relaunch::platform::main_bundle_with_identifier(&bundled).unwrap();
    assert_eq!(found.get().bundleIdentifier(), Some("org.example.MyApp".to_string()));
}

#[test]
fn bundles_keep_the_given_identifier() {
    let b = NSBundle::with_identifier(Some("com.example.Real".to_string()));
    assert_eq!(b.bundleIdentifier(), Some("com.example.Real".to_string()));
    assert_eq!(NSBundle::with_identifier(None).bundleIdentifier(), None);
}

#[test]
fn values_xml_cannot_carry_are_refused() {
    let t = Trampoline::new("Bad\u{1}Name", "org.example.Bad");
    assert_eq!(
        t.plan("/tmp", "/usr/local/bin/foo").err(),
        Some(BundleError::InvalidManifestValue)
    );
    let mut t = foo();
    t.version("1.0\u{FFFF}");
    assert_eq!(
        t.plan("/tmp", "/usr/local/bin/foo").err(),
        Some(BundleError::InvalidManifestValue)
    );
    assert_eq!(
        foo().plan("/tmp", "/usr/local/bin/fo\u{7}o").err(),
        Some(BundleError::InvalidManifestValue)
    );
    let mut t = foo();
    t.name("Tab\tand\nline");
    assert!(t.plan("/tmp", "/usr/local/bin/foo").is_ok());
    assert!(relaunch::manifest::valid_xml_text("plain é text"));
    assert!(!relaunch::manifest::valid_xml_text("nul\u{0}"));
}

#[test]
fn platform_from_reported_identifier() {
    assert!(Trampoline::is_bundled(&Platform::from_identifier(Some(
        "com.example.Real".to_string()
    ))));
    assert!(!Trampoline::is_bundled(&Platform::from_identifier(Some(String::new()))));
    assert!(!Trampoline::is_bundled(&Platform::from_identifier(None)));
}
