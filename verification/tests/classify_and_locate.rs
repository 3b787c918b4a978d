//! The variant classifier and the toolchain locator, driven as a build
//! script would drive them.

use embed_resource::compiler::{classify_probe_output, Compiler, CompilerKind};
use embed_resource::locate::{Locator, ProbeAction, ProbeEvent, ProbeOutcome};
use embed_resource::report::locate_result;
use embed_resource::target::{
    host_arch, mingw_windres_name, rc_var_exact, rc_var_underscored, target_family, windres_format,
    HostArch, TargetFamily,
};
use embed_resource::CompilationResult;

fn bytes(s: &str) -> Vec<u8> {
    s.as_bytes().to_vec()
}

#[test]
fn gnu_prefix_classifies_windres_whatever_follows() {
    let out = bytes("GNU windres (GNU Binutils) 2.38\nanything at all no-preprocess");
    assert_eq!(classify_probe_output(&out), Some(CompilerKind::WindRes));
    let out2 = bytes("GNU windres");
    assert_eq!(classify_probe_output(&out2), Some(CompilerKind::WindRes));
}

#[test]
fn llvm_long_overview_with_advertisement_sets_flag() {
    let out = bytes("OVERVIEW: LLVM Resource Converter\n  /no-preprocess  do not preprocess");
    assert_eq!(
        classify_probe_output(&out),
        Some(CompilerKind::LlvmRc {
            has_no_preprocess: true
        })
    );
}

#[test]
fn llvm_long_overview_without_advertisement_clears_flag() {
    let out = bytes("OVERVIEW: LLVM Resource Converter\n  /fo  output");
    assert_eq!(
        classify_probe_output(&out),
        Some(CompilerKind::LlvmRc {
            has_no_preprocess: false
        })
    );
}

#[test]
fn llvm_short_overview_recognized() {
    let out = bytes("OVERVIEW: Resource Converter\nno-preprocess");
    assert_eq!(
        classify_probe_output(&out),
        Some(CompilerKind::LlvmRc {
            has_no_preprocess: true
        })
    );
}

#[test]
fn unknown_output_is_no_compiler() {
    assert_eq!(classify_probe_output(&bytes("rc: unknown vendor tool")), None);
    assert_eq!(classify_probe_output(&bytes("")), None);
    assert_eq!(classify_probe_output(&bytes("GNU windre")), None);
}

#[test]
fn classification_is_idempotent() {
    let out = bytes("OVERVIEW: LLVM Resource Converter\n/no-preprocess");
    let first = classify_probe_output(&out);
    let second = classify_probe_output(&out);
    assert_eq!(first, second);
    let out2 = bytes("GNU windres 2.38");
    assert_eq!(classify_probe_output(&out2), classify_probe_output(&out2));
}

#[test]
fn target_families() {
    assert_eq!(
        target_family("x86_64-unknown-linux-gnu"),
        TargetFamily::NotWindows
    );
    assert_eq!(target_family("aarch64-apple-darwin"), TargetFamily::NotWindows);
    assert_eq!(target_family("i686-pc-windows-gnu"), TargetFamily::MinGw);
    assert_eq!(
        target_family("x86_64-pc-windows-gnullvm"),
        TargetFamily::MinGw
    );
    assert_eq!(target_family("x86_64-pc-windows-msvc"), TargetFamily::Msvc);
    assert_eq!(target_family(""), TargetFamily::NotWindows);
}

#[test]
fn windres_names_synthesized_from_architecture_segment() {
    assert_eq!(
        mingw_windres_name("x86_64-pc-windows-gnu"),
        "x86_64-w64-mingw32-windres"
    );
    assert_eq!(
        mingw_windres_name("i686-pc-windows-gnu"),
        "i686-w64-mingw32-windres"
    );
    assert_eq!(mingw_windres_name("noarch"), "-w64-mingw32-windres");
}

#[test]
fn override_variable_names() {
    assert_eq!(
        rc_var_exact("x86_64-pc-windows-msvc"),
        "RC_x86_64-pc-windows-msvc"
    );
    assert_eq!(
        rc_var_underscored("x86_64-pc-windows-msvc"),
        "RC_x86_64_pc_windows_msvc"
    );
}

#[test]
fn host_architectures() {
    assert_eq!(host_arch("x86_64-pc-windows-msvc"), HostArch::X64);
    assert_eq!(host_arch("aarch64-pc-windows-msvc"), HostArch::AArch64);
    assert_eq!(host_arch("i686-pc-windows-msvc"), HostArch::X86);
    assert_eq!(host_arch("powerpc-unknown"), HostArch::X86);
}

#[test]
fn windres_formats() {
    assert_eq!(
        windres_format(Some("clang64".to_string()), "x86_64-pc-windows-gnu"),
        "clang64"
    );
    assert_eq!(windres_format(None, "x86_64-pc-windows-gnu"), "pe-x86-64");
    assert_eq!(
        windres_format(None, "aarch64-pc-windows-gnullvm"),
        "pe-aarch64-little"
    );
    assert_eq!(windres_format(None, "i686-pc-windows-gnu"), "pe-i386");
}

#[test]
fn locator_inapplicable_target_reads_env_only() {
    let (mut l, a0) = Locator::start(Some("x86_64-unknown-linux-gnu".to_string()), false);
    match a0 {
        ProbeAction::ReadEnvVar(n) => assert_eq!(n, "RC_x86_64-unknown-linux-gnu"),
        _ => panic!("expected an environment read"),
    }
    let a1 = l.step(ProbeEvent::EnvVar(None));
    match a1 {
        ProbeAction::ReadEnvVar(n) => assert_eq!(n, "RC_x86_64_unknown_linux_gnu"),
        _ => panic!("expected an environment read"),
    }
    let a2 = l.step(ProbeEvent::EnvVar(None));
    match a2 {
        ProbeAction::ReadEnvVar(n) => assert_eq!(n, "RC"),
        _ => panic!("expected an environment read"),
    }
    let a3 = l.step(ProbeEvent::EnvVar(None));
    match a3 {
        ProbeAction::Finished(ProbeOutcome::NotWindows) => (),
        _ => panic!("expected the inapplicable outcome"),
    }
}

#[test]
fn locator_missing_windres_names_the_synthesized_executable() {
    let (mut l, _) = Locator::start(Some("x86_64-pc-windows-gnu".to_string()), false);
    l.step(ProbeEvent::EnvVar(None));
    l.step(ProbeEvent::EnvVar(None));
    let a = l.step(ProbeEvent::EnvVar(None));
    match a {
        ProbeAction::CheckRunnable(n) => assert_eq!(n, "x86_64-w64-mingw32-windres"),
        _ => panic!("expected a liveness probe"),
    }
    let a = l.step(ProbeEvent::Runnable(false));
    match a {
        ProbeAction::Finished(ProbeOutcome::NotAttempted(m)) => {
            assert_eq!(m, "x86_64-w64-mingw32-windres")
        }
        _ => panic!("expected the not-attempted outcome"),
    }
}

#[test]
fn locator_runnable_windres_is_found() {
    let (mut l, _) = Locator::start(Some("i686-pc-windows-gnu".to_string()), false);
    l.step(ProbeEvent::EnvVar(None));
    l.step(ProbeEvent::EnvVar(None));
    l.step(ProbeEvent::EnvVar(None));
    let a = l.step(ProbeEvent::Runnable(true));
    match a {
        ProbeAction::Finished(ProbeOutcome::Found(Compiler { kind, executable })) => {
            assert_eq!(kind, CompilerKind::WindRes);
            assert_eq!(executable, "i686-w64-mingw32-windres");
        }
        _ => panic!("expected a found compiler"),
    }
}

#[test]
fn locator_missing_llvm_rc_names_it_off_windows() {
    let (mut l, _) = Locator::start(Some("x86_64-pc-windows-msvc".to_string()), false);
    l.step(ProbeEvent::EnvVar(None));
    l.step(ProbeEvent::EnvVar(None));
    let a = l.step(ProbeEvent::EnvVar(None));
    match a {
        ProbeAction::CheckRunnable(n) => assert_eq!(n, "llvm-rc"),
        _ => panic!("expected a liveness probe"),
    }
    let a = l.step(ProbeEvent::Runnable(false));
    match a {
        ProbeAction::Finished(outcome) => {
            match &outcome {
                ProbeOutcome::NotAttempted(m) => assert_eq!(m, "llvm-rc"),
                _ => panic!("expected the not-attempted outcome"),
            }
            match locate_result(&outcome) {
                Some(CompilationResult::NotAttempted(m)) => assert!(m.contains("llvm-rc")),
                _ => panic!("expected a not-attempted result"),
            }
        }
        _ => panic!("expected the search to end"),
    }
}

#[test]
fn locator_runnable_llvm_rc_reads_help_for_the_flag() {
    let (mut l, _) = Locator::start(Some("x86_64-pc-windows-msvc".to_string()), false);
    l.step(ProbeEvent::EnvVar(None));
    l.step(ProbeEvent::EnvVar(None));
    l.step(ProbeEvent::EnvVar(None));
    let a = l.step(ProbeEvent::Runnable(true));
    match a {
        ProbeAction::RunHelpProbe(n) => assert_eq!(n, "llvm-rc"),
        _ => panic!("expected a help probe"),
    }
    let a = l.step(ProbeEvent::HelpOutput(Some(bytes(
        "OVERVIEW: LLVM Resource Converter\n/no-preprocess",
    ))));
    match a {
        ProbeAction::Finished(ProbeOutcome::Found(Compiler { kind, executable })) => {
            assert_eq!(
                kind,
                CompilerKind::LlvmRc {
                    has_no_preprocess: true
                }
            );
            assert_eq!(executable, "llvm-rc");
        }
        _ => panic!("expected a found compiler"),
    }
}

#[test]
fn locator_msvc_target_on_windows_host_falls_back_to_sdk_search() {
    let (mut l, _) = Locator::start(Some("x86_64-pc-windows-msvc".to_string()), true);
    l.step(ProbeEvent::EnvVar(None));
    l.step(ProbeEvent::EnvVar(None));
    l.step(ProbeEvent::EnvVar(None));
    let a = l.step(ProbeEvent::Runnable(false));
    match a {
        ProbeAction::FindSdkTool(n) => assert_eq!(n, "rc.exe"),
        _ => panic!("expected the SDK search"),
    }
    let a = l.step(ProbeEvent::SdkTool(None));
    match a {
        ProbeAction::Finished(ProbeOutcome::Found(Compiler { kind, executable })) => {
            assert_eq!(kind, CompilerKind::MsvcRc);
            assert_eq!(executable, "rc.exe");
        }
        _ => panic!("expected a found compiler"),
    }
}

#[test]
fn override_spawn_failure_is_classification_failure_regardless_of_target() {
    for target in ["x86_64-unknown-linux-gnu", "x86_64-pc-windows-msvc"] {
        let (mut l, _) = Locator::start(Some(target.to_string()), false);
        let a = l.step(ProbeEvent::EnvVar(Some("/nonexistent/rc".to_string())));
        match a {
            ProbeAction::RunClassifierProbe(n) => assert_eq!(n, "/nonexistent/rc"),
            _ => panic!("expected the classifier probe"),
        }
        let a = l.step(ProbeEvent::ClassifierOutput(Err(
            "No such file or directory".to_string()
        )));
        match a {
            ProbeAction::Finished(outcome) => {
                match &outcome {
                    ProbeOutcome::ClassificationFailed(m) => assert_eq!(
                        m,
                        "Couldn't execute /nonexistent/rc: No such file or directory"
                    ),
                    _ => panic!("expected a classification failure"),
                }
                match locate_result(&outcome) {
                    Some(CompilationResult::Failed(m)) => {
                        assert!(m.contains("/nonexistent/rc"))
                    }
                    _ => panic!("expected a hard failure"),
                }
            }
            _ => panic!("expected the search to end"),
        }
    }
}

#[test]
fn override_unknown_output_is_classification_failure() {
    let (mut l, _) = Locator::start(Some("x86_64-pc-windows-gnu".to_string()), false);
    l.step(ProbeEvent::EnvVar(None));
    let a = l.step(ProbeEvent::EnvVar(Some("my-rc".to_string())));
    match a {
        ProbeAction::RunClassifierProbe(n) => assert_eq!(n, "my-rc"),
        _ => panic!("expected the classifier probe"),
    }
    let a = l.step(ProbeEvent::ClassifierOutput(Ok(bytes("something else"))));
    match a {
        ProbeAction::Finished(ProbeOutcome::ClassificationFailed(m)) => {
            assert_eq!(m, "Unknown RC compiler variant: my-rc")
        }
        _ => panic!("expected a classification failure"),
    }
}

#[test]
fn override_with_recognized_output_is_found() {
    let (mut l, _) = Locator::start(Some("x86_64-pc-windows-msvc".to_string()), false);
    let a = l.step(ProbeEvent::EnvVar(Some("my-windres".to_string())));
    assert!(matches!(a, ProbeAction::RunClassifierProbe(_)));
    let a = l.step(ProbeEvent::ClassifierOutput(Ok(bytes("GNU windres 2.40"))));
    match a {
        ProbeAction::Finished(ProbeOutcome::Found(Compiler { kind, executable })) => {
            assert_eq!(kind, CompilerKind::WindRes);
            assert_eq!(executable, "my-windres");
        }
        _ => panic!("expected a found compiler"),
    }
}

#[test]
fn locator_without_target_is_not_attempted() {
    let (_, a) = Locator::start(None, false);
    match a {
        ProbeAction::Finished(ProbeOutcome::NotAttempted(m)) => assert_eq!(m, "no $TARGET"),
        _ => panic!("expected the not-attempted outcome"),
    }
}
