//! The SDK tool search, the include-path extension, and manifest probing.

use embed_resource::incpath::{extended_include_value, MutationGuard};
use embed_resource::manifest::{has_binaries, manifest_declares_bin, version_at_least};
use embed_resource::sdk::{find_windows_sdk_tool, SdkAction, SdkEvent, SdkSearch};
use embed_resource::target::HostArch;

fn strings(items: &[&str]) -> Vec<String> {
    items.iter().map(|s| s.to_string()).collect()
}

#[test]
fn sdk_search_exhausts_every_location() {
    let (mut s, a) = SdkSearch::start("rc.exe".to_string(), HostArch::X64);
    match a {
        SdkAction::ReadRegistryString { subkey, value } => {
            assert_eq!(subkey, "SOFTWARE\\Microsoft\\Windows Kits\\Installed Roots");
            assert_eq!(value, "KitsRoot10");
        }
        _ => panic!("expected a registry read"),
    }
    // versioned layout: no kit root
    let a = s.step(SdkEvent::Reg(None));
    match a {
        SdkAction::ReadRegistryString { value, .. } => assert_eq!(value, "KitsRoot10"),
        _ => panic!("expected a registry read"),
    }
    // flat layouts: no roots either
    let a = s.step(SdkEvent::Reg(None));
    match a {
        SdkAction::ReadRegistryString { value, .. } => assert_eq!(value, "KitsRoot81"),
        _ => panic!("expected a registry read"),
    }
    let a = s.step(SdkEvent::Reg(None));
    match a {
        SdkAction::ReadRegistryString { value, .. } => assert_eq!(value, "KitsRoot"),
        _ => panic!("expected a registry read"),
    }
    let a = s.step(SdkEvent::Reg(None));
    match a {
        SdkAction::ReadRegistryString { subkey, value } => {
            assert_eq!(subkey, "SOFTWARE\\Microsoft\\Microsoft SDKs\\Windows");
            assert_eq!(value, "CurrentInstallFolder");
        }
        _ => panic!("expected a registry read"),
    }
    let a = s.step(SdkEvent::Reg(None));
    assert!(matches!(a, SdkAction::VsSearch));
    let a = s.step(SdkEvent::VsRoot(None));
    match a {
        SdkAction::Done(r) => assert_eq!(r, None),
        _ => panic!("expected the search to end"),
    }
}

#[test]
fn sdk_search_finds_versioned_kit_tool() {
    let (mut s, _) = SdkSearch::start("rc.exe".to_string(), HostArch::X64);
    let a = s.step(SdkEvent::Reg(Some("C:/kits/10".to_string())));
    assert!(matches!(a, SdkAction::ClaimIncludeGuard));
    // the extension already ran in this process
    let a = s.step(SdkEvent::GuardWasSet(true));
    match a {
        SdkAction::ListDirNames(d) => assert_eq!(d, "C:/kits/10/bin"),
        _ => panic!("expected a directory listing"),
    }
    let a = s.step(SdkEvent::DirNames(strings(&["10.0.19041.0", "10.0.22000.0"])));
    match a {
        SdkAction::CheckDir(d) => assert_eq!(d, "C:/kits/10/bin/10.0.19041.0/x64"),
        _ => panic!("expected a directory check"),
    }
    // first version has no x64 directory; second does and holds the tool
    let a = s.step(SdkEvent::IsDir(false));
    match a {
        SdkAction::CheckDir(d) => assert_eq!(d, "C:/kits/10/bin/10.0.22000.0/x64"),
        _ => panic!("expected a directory check"),
    }
    let a = s.step(SdkEvent::IsDir(true));
    match a {
        SdkAction::CheckFile(p) => assert_eq!(p, "C:/kits/10/bin/10.0.22000.0/x64/rc.exe"),
        _ => panic!("expected a file check"),
    }
    let a = s.step(SdkEvent::Exists(true));
    match a {
        SdkAction::Done(r) => assert_eq!(r, Some("C:/kits/10/bin/10.0.22000.0/x64/rc.exe".to_string())),
        _ => panic!("expected the search to end"),
    }
}

#[test]
fn sdk_search_extends_the_include_path_once() {
    let (mut s, _) = SdkSearch::start("rc.exe".to_string(), HostArch::X86);
    s.step(SdkEvent::Reg(Some("C:/kits/10".to_string())));
    // nobody claimed the extension yet
    let a = s.step(SdkEvent::GuardWasSet(false));
    match a {
        SdkAction::ReadEnvVar(n) => assert_eq!(n, "INCLUDE"),
        _ => panic!("expected an environment read"),
    }
    let a = s.step(SdkEvent::EnvVar(Some("C:/existing".to_string())));
    match a {
        SdkAction::ListIncludeSubdirs(d) => assert_eq!(d, "C:/kits/10\\Include\\"),
        _ => panic!("expected the versioned include listing"),
    }
    let a = s.step(SdkEvent::IncludeSubdirs(strings(&[
        "C:/kits/10/Include/10.0/um",
        "C:/existing",
        "C:/kits/10/Include/10.0/shared",
    ])));
    assert!(matches!(a, SdkAction::FindClInclude));
    let a = s.step(SdkEvent::ClInclude(Some("C:/msvc/inc".to_string())));
    match a {
        SdkAction::SetEnvVar { name, value } => {
            assert_eq!(name, "INCLUDE");
            // existing entries kept and terminated; the already-present
            // subdirectory is not appended again; compiler paths follow
            assert_eq!(
                value,
                "C:/existing;C:/kits/10/Include/10.0/um;C:/kits/10/Include/10.0/shared;C:/msvc/inc;"
            );
        }
        _ => panic!("expected the variable to be set"),
    }
    let a = s.step(SdkEvent::EnvSet);
    match a {
        SdkAction::ListDirNames(d) => assert_eq!(d, "C:/kits/10/bin"),
        _ => panic!("expected a directory listing"),
    }
}

#[test]
fn sdk_search_flat_and_legacy_layouts() {
    let (mut s, _) = SdkSearch::start("rc.exe".to_string(), HostArch::AArch64);
    s.step(SdkEvent::Reg(None));
    // KitsRoot10 flat lookup has a root whose directory exists but no tool
    let a = s.step(SdkEvent::Reg(Some("C:/kits/10".to_string())));
    match a {
        SdkAction::CheckDir(d) => assert_eq!(d, "C:/kits/10/bin/arm64"),
        _ => panic!("expected a directory check"),
    }
    let a = s.step(SdkEvent::IsDir(true));
    match a {
        SdkAction::CheckFile(p) => assert_eq!(p, "C:/kits/10/bin/arm64/rc.exe"),
        _ => panic!("expected a file check"),
    }
    let a = s.step(SdkEvent::Exists(false));
    match a {
        SdkAction::ReadRegistryString { value, .. } => assert_eq!(value, "KitsRoot81"),
        _ => panic!("expected a registry read"),
    }
    s.step(SdkEvent::Reg(None));
    s.step(SdkEvent::Reg(None));
    // the legacy SDK holds the tool
    let a = s.step(SdkEvent::Reg(Some("C:/sdk".to_string())));
    match a {
        SdkAction::CheckDir(d) => assert_eq!(d, "C:/sdk/Bin/arm64"),
        _ => panic!("expected a directory check"),
    }
    let a = s.step(SdkEvent::IsDir(true));
    match a {
        SdkAction::CheckFile(p) => assert_eq!(p, "C:/sdk/Bin/arm64/rc.exe"),
        _ => panic!("expected a file check"),
    }
    let a = s.step(SdkEvent::Exists(true));
    match a {
        SdkAction::Done(r) => assert_eq!(r, Some("C:/sdk/Bin/arm64/rc.exe".to_string())),
        _ => panic!("expected the search to end"),
    }
}

#[test]
fn sdk_search_locator_roots() {
    let (mut s, _) = SdkSearch::start("midl.exe".to_string(), HostArch::X64);
    s.step(SdkEvent::Reg(None));
    s.step(SdkEvent::Reg(None));
    s.step(SdkEvent::Reg(None));
    s.step(SdkEvent::Reg(None));
    s.step(SdkEvent::Reg(None));
    let a = s.step(SdkEvent::VsRoot(Some("C:/kits/10/lib/10.0.19041.0".to_string())));
    match a {
        SdkAction::CheckDir(d) => assert_eq!(d, "C:/kits/10/bin/10.0.19041.0/x64"),
        _ => panic!("expected a directory check"),
    }
    // the versioned directory is missing: fall back to the unversioned one
    let a = s.step(SdkEvent::IsDir(false));
    match a {
        SdkAction::CheckDir(d) => assert_eq!(d, "C:/kits/10/bin/x64"),
        _ => panic!("expected a directory check"),
    }
    let a = s.step(SdkEvent::IsDir(true));
    match a {
        SdkAction::CheckFile(p) => assert_eq!(p, "C:/kits/10/bin/x64/midl.exe"),
        _ => panic!("expected a file check"),
    }
    let a = s.step(SdkEvent::Exists(false));
    match a {
        SdkAction::Done(r) => assert_eq!(r, None),
        _ => panic!("expected the search to end"),
    }
}

#[test]
fn no_sdk_tool_off_windows() {
    assert_eq!(find_windows_sdk_tool("rc.exe"), None);
    assert_eq!(find_windows_sdk_tool("midl.exe"), None);
}

#[test]
fn include_extension_dedups_and_terminates() {
    let dirs = strings(&["a", "b"]);
    assert_eq!(extended_include_value("", &dirs, None), ";a;b;");
    assert_eq!(extended_include_value("x;", &dirs, None), "x;a;b;");
    assert_eq!(extended_include_value("x", &dirs, None), "x;a;b;");
    // a directory already present anywhere in the value is skipped
    let dirs = strings(&["x", "b"]);
    assert_eq!(extended_include_value("x;", &dirs, None), "x;b;");
    // deduplication sees what was appended earlier in the same pass
    let dirs = strings(&["a", "a"]);
    assert_eq!(extended_include_value("", &dirs, None), ";a;");
    let cl = "C:/msvc/inc".to_string();
    assert_eq!(
        extended_include_value("x;", &strings(&[]), Some(&cl)),
        "x;C:/msvc/inc;"
    );
}

#[test]
fn include_extension_claimed_at_most_once() {
    let mut guard = MutationGuard::new();
    assert!(guard.claim());
    assert!(!guard.claim());
    assert!(!guard.claim());
}

#[test]
fn manifest_bin_detection() {
    assert!(manifest_declares_bin("[package]\nname = \"x\"\n\n[[bin]]\nname = \"tool\"\n"));
    assert!(manifest_declares_bin("bin = []\n"));
    assert!(!manifest_declares_bin("[package]\nname = \"x\"\n"));
    // text that does not parse declares nothing
    assert!(!manifest_declares_bin("= = ="));
    assert!(!manifest_declares_bin(""));
}

#[test]
fn binary_presence_decision() {
    assert!(has_binaries(Some("[[bin]]\nname = \"t\"\n"), false, false));
    assert!(!has_binaries(Some("[package]\n"), false, false));
    assert!(has_binaries(Some("[package]\n"), true, false));
    assert!(has_binaries(None, false, true));
    assert!(!has_binaries(None, false, false));
}

#[test]
fn version_gate() {
    assert!(version_at_least(1, 50, 0, 1, 50, 0));
    assert!(version_at_least(1, 50, 1, 1, 50, 0));
    assert!(version_at_least(1, 51, 0, 1, 50, 0));
    assert!(version_at_least(2, 0, 0, 1, 50, 0));
    assert!(!version_at_least(1, 49, 9, 1, 50, 0));
    assert!(!version_at_least(0, 99, 0, 1, 50, 0));
}
