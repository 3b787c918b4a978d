//! The invocation builder, path handling, and result reporting.

use embed_resource::compiler::{Compiler, CompilerKind};
use embed_resource::invoke::{
    command_failure_message, command_result, command_spawn_failure_message, llvm_rc_invocation,
    msvc_rc_invocation, native_windres_invocation, out_file_path, preprocess_plan,
    preprocessed_path, split_macro, windres_invocation, CompilePlan, SpawnOutcome,
};
use embed_resource::params::{
    ParameterBundle, ParamsIncludeDirs, ParamsMacros, ParamsMacrosAndIncludeDirs,
};
use embed_resource::paths::{file_name_part, file_stem, or_curdir, parent_dir};
use embed_resource::report::{
    binary_link_directives, link_arg_all_directive, link_arg_benches_directive,
    link_arg_bin_directive, link_arg_examples_directive, link_arg_tests_directive, locate_result,
    ResourceCompiler,
};
use embed_resource::locate::ProbeOutcome;
use embed_resource::CompilationResult;

fn strings(items: &[&str]) -> Vec<String> {
    items.iter().map(|s| s.to_string()).collect()
}

#[test]
fn manifest_policies() {
    assert_eq!(CompilationResult::NotWindows.manifest_optional(), Ok(()));
    assert_eq!(CompilationResult::Succeeded.manifest_optional(), Ok(()));
    assert_eq!(
        CompilationResult::NotAttempted("windres".to_string()).manifest_optional(),
        Ok(())
    );
    let failed = CompilationResult::Failed("boom".to_string());
    assert_eq!(failed.clone().manifest_optional(), Err(failed.clone()));

    assert_eq!(CompilationResult::NotWindows.manifest_required(), Ok(()));
    assert_eq!(CompilationResult::Succeeded.manifest_required(), Ok(()));
    let missing = CompilationResult::NotAttempted("windres".to_string());
    assert_eq!(missing.clone().manifest_required(), Err(missing));
    assert_eq!(failed.clone().manifest_required(), Err(failed));
}

#[test]
fn result_messages() {
    assert_eq!(
        CompilationResult::NotWindows.message(),
        "embed-resource: not building for windows"
    );
    assert_eq!(CompilationResult::Succeeded.message(), "embed-resource: OK");
    assert_eq!(
        CompilationResult::NotAttempted("windres".to_string()).message(),
        "embed-resource: compilation not attempted: missing compiler: windres"
    );
    assert_eq!(
        CompilationResult::NotAttempted("no usable tool".to_string()).message(),
        "embed-resource: compilation not attempted: no usable tool"
    );
    assert_eq!(
        CompilationResult::Failed("rc.exe exploded".to_string()).message(),
        "embed-resource: rc.exe exploded"
    );
}

#[test]
fn stems_and_parents() {
    assert_eq!(file_stem("app.rc"), "app");
    assert_eq!(file_stem("assets/poke-a-mango.rc"), "poke-a-mango");
    assert_eq!(file_stem("a\\b\\c.d.rc"), "c.d");
    assert_eq!(file_stem(".rc"), ".rc");
    assert_eq!(file_stem("noext"), "noext");
    assert_eq!(file_stem("dir/trailing."), "trailing");
    assert_eq!(file_name_part("a/b/c.rc"), "c.rc");
    assert_eq!(file_name_part("c.rc"), "c.rc");
    assert_eq!(parent_dir("a/b/c.rc"), "a/b");
    assert_eq!(parent_dir("c.rc"), "");
    assert_eq!(or_curdir(""), ".");
    assert_eq!(or_curdir("a/b"), "a/b");
}

#[test]
fn output_paths() {
    assert_eq!(
        out_file_path("out", "app", &CompilerKind::WindRes),
        "out/libapp.a"
    );
    assert_eq!(
        out_file_path(
            "out",
            "app",
            &CompilerKind::LlvmRc {
                has_no_preprocess: false
            }
        ),
        "out/app.lib"
    );
    assert_eq!(out_file_path("out", "app", &CompilerKind::MsvcRc), "out/app.lib");
    assert_eq!(preprocessed_path("out", "app"), "out/app-preprocessed.rc");
}

#[test]
fn macros_split_at_first_equals_sign() {
    assert_eq!(split_macro("VERSION=0.5.0"), ("VERSION".to_string(), Some("0.5.0".to_string())));
    assert_eq!(split_macro("A=B=C"), ("A".to_string(), Some("B=C".to_string())));
    assert_eq!(split_macro("RC_INVOKED"), ("RC_INVOKED".to_string(), None));
    assert_eq!(split_macro("X="), ("X".to_string(), Some("".to_string())));
}

#[test]
fn windres_command_line() {
    let bundle = ParameterBundle {
        macros: strings(&["VERSION=1", "DEBUG"]),
        include_dirs: strings(&["src/inc"]),
    };
    let inv = windres_invocation(
        &"i686-w64-mingw32-windres".to_string(),
        "out",
        "out/libapp.a",
        "app.rc",
        &bundle,
    );
    assert_eq!(inv.program, "i686-w64-mingw32-windres");
    assert_eq!(
        inv.args,
        strings(&[
            "--input",
            "app.rc",
            "--output-format=coff",
            "--output",
            "out/libapp.a",
            "--include-dir",
            "out",
            "-D",
            "VERSION=1",
            "-D",
            "DEBUG",
            "--include-dir",
            "src/inc",
        ])
    );
}

#[test]
fn native_windres_command_line() {
    let bundle = ParameterBundle {
        macros: strings(&["A"]),
        include_dirs: strings(&["i1", "i2"]),
    };
    let inv = native_windres_invocation("pe-x86-64", "out", "out/libapp.a", "app.rc", &bundle);
    assert_eq!(inv.program, "windres");
    assert_eq!(
        inv.args,
        strings(&[
            "--input",
            "app.rc",
            "--output-format=coff",
            "--target",
            "pe-x86-64",
            "--output",
            "out/libapp.a",
            "--include-dir",
            "out",
            "-D",
            "A",
            "-I",
            "i1",
            "-I",
            "i2",
        ])
    );
}

#[test]
fn llvm_rc_command_lines() {
    let inv = llvm_rc_invocation(
        &"llvm-rc".to_string(),
        true,
        "out/app.lib",
        "out/app-preprocessed.rc",
    );
    assert_eq!(inv.program, "llvm-rc");
    assert_eq!(
        inv.args,
        strings(&[
            "/fo",
            "out/app.lib",
            "/C",
            "65001",
            "/no-preprocess",
            "--",
            "out/app-preprocessed.rc",
        ])
    );
    let inv = llvm_rc_invocation(
        &"llvm-rc".to_string(),
        false,
        "out/app.lib",
        "out/app-preprocessed.rc",
    );
    assert_eq!(
        inv.args,
        strings(&["/fo", "out/app.lib", "/C", "65001", "--", "out/app-preprocessed.rc"])
    );
}

#[test]
fn msvc_rc_command_line() {
    let bundle = ParameterBundle {
        macros: strings(&["NDEBUG"]),
        include_dirs: strings(&["inc"]),
    };
    let inv = msvc_rc_invocation(
        &"C:/kits/rc.exe".to_string(),
        "out",
        "out/app.lib",
        "app.rc",
        &bundle,
    );
    assert_eq!(inv.program, "C:/kits/rc.exe");
    assert_eq!(
        inv.args,
        strings(&["/fo", "out/app.lib", "/I", "out", "/D", "NDEBUG", "/I", "inc", "app.rc"])
    );
}

#[test]
fn preprocess_pass_layout() {
    let bundle = ParameterBundle {
        macros: strings(&["VERSION=0.5.0", "BARE"]),
        include_dirs: strings(&["inc1"]),
    };
    let plan = preprocess_plan("out", "app", "assets/app.rc", &bundle, false);
    assert_eq!(plan.defines.len(), 3);
    assert_eq!(plan.defines[0], ("RC_INVOKED".to_string(), None));
    assert_eq!(
        plan.defines[1],
        ("VERSION".to_string(), Some("0.5.0".to_string()))
    );
    assert_eq!(plan.defines[2], ("BARE".to_string(), None));
    assert_eq!(plan.include_dirs, strings(&["inc1", "out"]));
    assert_eq!(plan.flags, strings(&["-xc"]));
    assert_eq!(plan.file, "assets/app.rc");
    assert_eq!(plan.output_path, "out/app-preprocessed.rc");

    let plan = preprocess_plan("out", "app", "app.rc", &bundle, true);
    assert_eq!(plan.flags, strings(&["-Xclang", "-xc"]));
}

#[test]
fn scenario_windres_compilation_end_to_end() {
    // target `i686-pc-windows-gnu`, the cross windres present, resource
    // `app.rc`, empty bundle: a `lib<stem>.a` in the output directory and a
    // successful result.
    let compiler = Compiler {
        kind: CompilerKind::WindRes,
        executable: "i686-w64-mingw32-windres".to_string(),
    };
    let handle = ResourceCompiler::new(ProbeOutcome::Found(compiler));
    assert_eq!(handle.is_supported(), None);
    assert!(locate_result(&handle.probed).is_none());
    let prefix = file_stem("app.rc");
    let bundle = ParameterBundle::none();
    let plan = handle
        .compiler()
        .unwrap()
        .plan_compile("out", prefix, "app.rc", &bundle, false);
    match plan {
        CompilePlan::WindRes {
            invocation,
            out_file,
        } => {
            assert_eq!(out_file, "out/libapp.a");
            assert_eq!(invocation.program, "i686-w64-mingw32-windres");
            let ended = SpawnOutcome::Exited {
                success: true,
                status: "exit status: 0".to_string(),
            };
            let run = command_result(
                &ended,
                invocation.program.as_str(),
                "compile",
                "app.rc",
                out_file.as_str(),
            );
            assert_eq!(run, Ok(()));
            assert_eq!(
                CompilationResult::Succeeded.manifest_required(),
                Ok(())
            );
        }
        _ => panic!("expected the windres plan"),
    }
}

#[test]
fn llvm_plan_runs_from_the_resource_directory() {
    let compiler = Compiler {
        kind: CompilerKind::LlvmRc {
            has_no_preprocess: true,
        },
        executable: "llvm-rc".to_string(),
    };
    let bundle = ParameterBundle::none();
    let plan = compiler.plan_compile("out", "app", "assets/app.rc", &bundle, false);
    match plan {
        CompilePlan::LlvmRc {
            preprocess,
            invocation,
            work_dir,
            out_file,
        } => {
            assert_eq!(out_file, "out/app.lib");
            assert_eq!(preprocess.output_path, "out/app-preprocessed.rc");
            assert_eq!(work_dir, "assets");
            assert_eq!(invocation.program, "llvm-rc");
            assert!(invocation.args.contains(&"/no-preprocess".to_string()));
        }
        _ => panic!("expected the llvm plan"),
    }
    let plan = compiler.plan_compile("out", "app", "app.rc", &bundle, false);
    match plan {
        CompilePlan::LlvmRc { work_dir, .. } => assert_eq!(work_dir, "."),
        _ => panic!("expected the llvm plan"),
    }
}

#[test]
fn failure_messages_name_everything() {
    assert_eq!(
        command_failure_message("windres", "compile", "app.rc", "out/libapp.a", "exit status: 1"),
        "windres failed to compile \"app.rc\" into \"out/libapp.a\" with exit status: 1"
    );
    assert_eq!(
        command_spawn_failure_message("rc.exe", "compile", "app.rc", "out/app.lib", "not found"),
        "Couldn't execute rc.exe to compile \"app.rc\" into \"out/app.lib\": not found"
    );
    let unclean = SpawnOutcome::Exited {
        success: false,
        status: "exit status: 1".to_string(),
    };
    assert_eq!(
        command_result(&unclean, "windres", "compile", "app.rc", "out/libapp.a"),
        Err(
            "windres failed to compile \"app.rc\" into \"out/libapp.a\" with exit status: 1"
                .to_string()
        )
    );
    let unspawned = SpawnOutcome::SpawnFailed {
        error: "No such file".to_string(),
    };
    assert_eq!(
        command_result(&unspawned, "rc", "compile", "a.rc", "a.lib"),
        Err("Couldn't execute rc to compile \"a.rc\" into \"a.lib\": No such file".to_string())
    );
}

#[test]
fn link_directives() {
    assert_eq!(
        link_arg_bin_directive("app", "out/libapp.a"),
        "cargo:rustc-link-arg-bin=app=out/libapp.a"
    );
    assert_eq!(
        link_arg_tests_directive("o.lib"),
        "cargo:rustc-link-arg-tests=o.lib"
    );
    assert_eq!(
        link_arg_benches_directive("o.lib"),
        "cargo:rustc-link-arg-benches=o.lib"
    );
    assert_eq!(
        link_arg_examples_directive("o.lib"),
        "cargo:rustc-link-arg-examples=o.lib"
    );
    assert_eq!(link_arg_all_directive("o.lib"), "cargo:rustc-link-arg=o.lib");
    assert_eq!(
        binary_link_directives(true, true, "out/libapp.a", "out", "app"),
        strings(&["cargo:rustc-link-arg-bins=out/libapp.a"])
    );
    assert_eq!(
        binary_link_directives(true, false, "out/libapp.a", "out", "app"),
        strings(&[
            "cargo:rustc-link-search=native=out",
            "cargo:rustc-link-lib=dylib=app",
        ])
    );
    assert_eq!(
        binary_link_directives(false, true, "out/libapp.a", "out", "app"),
        strings(&[
            "cargo:rustc-link-search=native=out",
            "cargo:rustc-link-lib=dylib=app",
        ])
    );
}

#[test]
fn argument_bundle_into() {
    assert_eq!(
        ParamsMacros(strings(&[])).into_bundle(),
        ParameterBundle::none()
    );
    assert_eq!(
        ParamsMacros(strings(&["A"])).into_bundle(),
        ParameterBundle {
            macros: strings(&["A"]),
            include_dirs: strings(&[]),
        }
    );
    assert_eq!(
        ParamsIncludeDirs(strings(&["inc"])).into_bundle(),
        ParameterBundle {
            macros: strings(&[]),
            include_dirs: strings(&["inc"]),
        }
    );
    assert_eq!(
        ParamsMacrosAndIncludeDirs(strings(&["A"]), strings(&["inc"])).into_bundle(),
        ParameterBundle {
            macros: strings(&["A"]),
            include_dirs: strings(&["inc"]),
        }
    );
    assert_eq!(
        ParameterBundle::from_macros(strings(&["A="])),
        ParameterBundle {
            macros: strings(&["A="]),
            include_dirs: strings(&[]),
        }
    );
    assert_eq!(
        ParameterBundle::from_include_dirs(strings(&["i"])),
        ParameterBundle {
            macros: strings(&[]),
            include_dirs: strings(&["i"]),
        }
    );
}

#[test]
fn unsupported_handles() {
    let handle = ResourceCompiler::new(ProbeOutcome::NotWindows);
    assert_eq!(handle.is_supported(), Some("".to_string()));
    assert!(handle.compiler().is_none());
    assert_eq!(
        locate_result(&handle.probed),
        Some(CompilationResult::NotWindows)
    );
    let handle = ResourceCompiler::new(ProbeOutcome::NotAttempted("windres".to_string()));
    assert_eq!(handle.is_supported(), Some("windres".to_string()));
    assert_eq!(
        locate_result(&handle.probed),
        Some(CompilationResult::NotAttempted("windres".to_string()))
    );
    let handle = ResourceCompiler::new(ProbeOutcome::ClassificationFailed("bad rc".to_string()));
    assert_eq!(handle.is_supported(), Some("bad rc".to_string()));
    assert_eq!(
        locate_result(&handle.probed),
        Some(CompilationResult::Failed("bad rc".to_string()))
    );
}
