//! The invocation builder: exact command lines for each compiler variant.
//!
//! Given a classified compiler, an output directory, a link-name prefix, a
//! resource file, and a parameter bundle, this module constructs the process
//! invocations to run and the path of the object file they produce.  GNU
//! `windres` and `RC.EXE` are invoked directly; LLVM's resource converter
//! needs a C-preprocessor pass first, described by a [`PreprocessPlan`].
//! Running the processes — and reporting how they ended — is the embedding
//! build script's job; [`command_result`] turns what it saw into the typed
//! result, with a message naming the tool, the action, the resource, and the
//! intended output.

use vstd::prelude::*;

verus! {

use vstd::string::StringExecFns;
use crate::compiler::Compiler;
use crate::compiler::CompilerKind;
use crate::params::ParameterBundle;
use crate::paths::is_parent_of;
use crate::paths::or_curdir;
use crate::paths::parent_dir;
use crate::strutil::concat4;
use crate::strutil::find_char;

/// One process to run: a program and its arguments, in order.
pub struct Invocation {
    /// The executable's name or path.
    pub program: String,
    /// The arguments, in the order they are passed.
    pub args: Vec<String>,
}

/// Each item of `items`, preceded by its own copy of the flag `pref`.
pub open spec fn interleave(pref: Seq<char>, items: Seq<Seq<char>>) -> Seq<Seq<char>> {
    Seq::new(
        items.len() * 2,
        |i: int|
            if i % 2 == 0 {
                pref
            } else {
                items[i / 2]
            },
    )
}

/// Append a copy of `pref` before each item of `items`.
fn push_flagged(args: &mut Vec<String>, pref: &str, items: &Vec<String>)
    ensures
        final(args).deep_view() == old(args).deep_view() + interleave(pref@, items.deep_view()),
{
    let mut k: usize = 0;
    while k < items.len()
        invariant
            k <= items@.len(),
            args.deep_view() =~= old(args).deep_view() + interleave(
                pref@,
                items.deep_view().take(k as int),
            ),
        decreases items@.len() - k,
    {
        let ghost dv0 = args.deep_view();
        args.push(String::from_str(pref));
        let item = items[k].clone();
        args.push(item);
        proof {
            assert(args.deep_view() =~= dv0 + seq![pref@, items.deep_view()[k as int]]);
            assert(interleave(pref@, items.deep_view().take(k + 1 as int)) =~= interleave(
                pref@,
                items.deep_view().take(k as int),
            ) + seq![pref@, items.deep_view()[k as int]]);
        }
        k += 1;
        proof {
            assert(args.deep_view() =~= old(args).deep_view() + interleave(
                pref@,
                items.deep_view().take(k as int),
            ));
        }
    }
    proof {
        assert(items.deep_view().take(items@.len() as int) =~= items.deep_view());
        assert(args.deep_view() =~= old(args).deep_view() + interleave(pref@, items.deep_view()));
    }
}

/// Append the bundle to an argument list: every macro behind its own
/// `macro_pref` flag, then every include directory behind its own
/// `include_dir_pref` flag, in bundle order.
pub fn apply_parameters(
    args: &mut Vec<String>,
    macro_pref: &str,
    include_dir_pref: &str,
    parameters: &ParameterBundle,
)
    ensures
        final(args).deep_view() == old(args).deep_view() + interleave(
            macro_pref@,
            parameters.macros.deep_view(),
        ) + interleave(include_dir_pref@, parameters.include_dirs.deep_view()),
{
    push_flagged(args, macro_pref, &parameters.macros);
    push_flagged(args, include_dir_pref, &parameters.include_dirs);
    proof {
        assert(args.deep_view() =~= old(args).deep_view() + interleave(
            macro_pref@,
            parameters.macros.deep_view(),
        ) + interleave(include_dir_pref@, parameters.include_dirs.deep_view()));
    }
}

/// The object file a compilation produces: `lib<prefix>.a` in the output
/// directory for GNU `windres` (what a GNU-style linker step expects),
/// `<prefix>.lib` for the MSVC-like variants.
pub fn out_file_path(out_dir: &str, prefix: &str, kind: &CompilerKind) -> (r: String)
    ensures
        kind is WindRes ==> r@ == out_dir@ + "/lib"@ + prefix@ + ".a"@,
        !(kind is WindRes) ==> r@ == out_dir@ + "/"@ + prefix@ + ".lib"@,
{
    match kind {
        CompilerKind::WindRes => concat4(out_dir, "/lib", prefix, ".a"),
        _ => concat4(out_dir, "/", prefix, ".lib"),
    }
}

/// The sibling file the preprocessing pass writes:
/// `<prefix>-preprocessed.rc` in the output directory.
pub fn preprocessed_path(out_dir: &str, prefix: &str) -> (r: String)
    ensures
        r@ == out_dir@ + "/"@ + prefix@ + "-preprocessed.rc"@,
{
    concat4(out_dir, "/", prefix, "-preprocessed.rc")
}

/// `name` and `value` are the macro `m` taken apart at its first `=`:
/// everything before it and everything after it, or the whole of `m` and no
/// value when it has none.
pub open spec fn is_macro_split(m: Seq<char>, name: Seq<char>, value: Option<Seq<char>>) -> bool {
    ||| exists|i: int|
        {
            &&& 0 <= i < m.len()
            &&& m[i] == '='
            &&& (forall|j: int| 0 <= j < i ==> m[j] != '=')
            &&& name == m.subrange(0, i)
            &&& value == Some(m.subrange(i + 1, m.len() as int))
        }
    ||| {
        &&& (forall|j: int| 0 <= j < m.len() ==> m[j] != '=')
        &&& name == m
        &&& value is None
    }
}

/// Take a `NAME` or `NAME=VALUE` macro apart at its first `=`.
pub fn split_macro(m: &str) -> (r: (String, Option<String>))
    ensures
        is_macro_split(
            m@,
            r.0@,
            match r.1 {
                Some(v) => Some(v@),
                None => None,
            },
        ),
{
    let n = m.unicode_len();
    match find_char(m, '=') {
        Some(i) => {
            let name = String::from_str(m.substring_char(0, i));
            let value = String::from_str(m.substring_char(i + 1, n));
            (name, Some(value))
        },
        None => (String::from_str(m), None),
    }
}

/// The C-preprocessor pass that precedes LLVM's resource converter: expand
/// the resource with `RC_INVOKED` predefined, every bundle macro applied,
/// every bundle include directory and the output directory on the search
/// path, the language forced to C, and the result written to a sibling file.
pub struct PreprocessPlan {
    /// Predefined and caller macros, each a name with an optional value;
    /// `RC_INVOKED` first, then the bundle's macros in order, each taken
    /// apart at its first `=`.
    pub defines: Vec<(String, Option<String>)>,
    /// The search path: the bundle's include directories in order, then the
    /// output directory.
    pub include_dirs: Vec<String>,
    /// Flags forcing expand-only C-language treatment: `-xc`, preceded by
    /// `-Xclang` when the preprocessor driver answers to an MSVC-style
    /// command line.
    pub flags: Vec<String>,
    /// The resource file to expand.
    pub file: String,
    /// Where the expanded text is written.
    pub output_path: String,
}

/// Construct the preprocessing pass for a resource.
///
/// `driver_like_msvc` says whether the preprocessor driver answers to an
/// MSVC-style command line (a `clang-cl`), in which case the language flag
/// must ride behind `-Xclang`.
pub fn preprocess_plan(
    out_dir: &str,
    prefix: &str,
    resource: &str,
    parameters: &ParameterBundle,
    driver_like_msvc: bool,
) -> (r: PreprocessPlan)
    ensures
        r.defines@.len() == 1 + parameters.macros@.len(),
        r.defines@[0].0@ == "RC_INVOKED"@ && r.defines@[0].1 is None,
        forall|k: int|
            0 <= k < parameters.macros@.len() ==> is_macro_split(
                parameters.macros.deep_view()[k],
                #[trigger] r.defines@[k + 1].0@,
                match r.defines@[k + 1].1 {
                    Some(v) => Some(v@),
                    None => None,
                },
            ),
        r.include_dirs.deep_view() == parameters.include_dirs.deep_view() + seq![out_dir@],
        driver_like_msvc ==> r.flags.deep_view() =~= seq!["-Xclang"@, "-xc"@],
        !driver_like_msvc ==> r.flags.deep_view() =~= seq!["-xc"@],
        r.file@ == resource@,
        r.output_path@ == out_dir@ + "/"@ + prefix@ + "-preprocessed.rc"@,
{
    let mut defines: Vec<(String, Option<String>)> = Vec::new();
    defines.push((String::from_str("RC_INVOKED"), None));
    let mut k: usize = 0;
    while k < parameters.macros.len()
        invariant
            k <= parameters.macros@.len(),
            defines@.len() == 1 + k,
            defines@[0].0@ == "RC_INVOKED"@ && defines@[0].1 is None,
            forall|j: int|
                0 <= j < k ==> is_macro_split(
                    parameters.macros.deep_view()[j],
                    #[trigger] defines@[j + 1].0@,
                    match defines@[j + 1].1 {
                        Some(v) => Some(v@),
                        None => None,
                    },
                ),
        decreases parameters.macros@.len() - k,
    {
        let m = split_macro(parameters.macros[k].as_str());
        defines.push(m);
        k += 1;
    }

    let mut include_dirs: Vec<String> = Vec::new();
    push_all(&mut include_dirs, &parameters.include_dirs);
    include_dirs.push(String::from_str(out_dir));
    proof {
        assert(include_dirs.deep_view() =~= parameters.include_dirs.deep_view() + seq![out_dir@]);
    }

    let mut flags: Vec<String> = Vec::new();
    if driver_like_msvc {
        flags.push(String::from_str("-Xclang"));
    }
    flags.push(String::from_str("-xc"));

    PreprocessPlan {
        defines,
        include_dirs,
        flags,
        file: String::from_str(resource),
        output_path: preprocessed_path(out_dir, prefix),
    }
}

/// Append a copy of every item of `items`.
fn push_all(args: &mut Vec<String>, items: &Vec<String>)
    ensures
        final(args).deep_view() == old(args).deep_view() + items.deep_view(),
{
    let mut k: usize = 0;
    while k < items.len()
        invariant
            k <= items@.len(),
            args.deep_view() =~= old(args).deep_view() + items.deep_view().take(k as int),
        decreases items@.len() - k,
    {
        let ghost dv0 = args.deep_view();
        let item = items[k].clone();
        args.push(item);
        proof {
            assert(args.deep_view() =~= dv0 + seq![items.deep_view()[k as int]]);
            assert(items.deep_view().take(k + 1 as int) =~= items.deep_view().take(k as int)
                + seq![items.deep_view()[k as int]]);
        }
        k += 1;
        proof {
            assert(args.deep_view() =~= old(args).deep_view() + items.deep_view().take(
                k as int,
            ));
        }
    }
    proof {
        assert(items.deep_view().take(items@.len() as int) =~= items.deep_view());
        assert(args.deep_view() =~= old(args).deep_view() + items.deep_view());
    }
}

/// The arguments of a cross `windres` invocation.
pub open spec fn windres_args(
    resource: Seq<char>,
    out_file: Seq<char>,
    out_dir: Seq<char>,
    macros: Seq<Seq<char>>,
    dirs: Seq<Seq<char>>,
) -> Seq<Seq<char>> {
    seq![
        "--input"@,
        resource,
        "--output-format=coff"@,
        "--output"@,
        out_file,
        "--include-dir"@,
        out_dir,
    ] + interleave("-D"@, macros) + interleave("--include-dir"@, dirs)
}

/// The arguments of a host-native `windres` invocation, which also names the
/// object format to emit.
pub open spec fn native_windres_args(
    resource: Seq<char>,
    format: Seq<char>,
    out_file: Seq<char>,
    out_dir: Seq<char>,
    macros: Seq<Seq<char>>,
    dirs: Seq<Seq<char>>,
) -> Seq<Seq<char>> {
    seq![
        "--input"@,
        resource,
        "--output-format=coff"@,
        "--target"@,
        format,
        "--output"@,
        out_file,
        "--include-dir"@,
        out_dir,
    ] + interleave("-D"@, macros) + interleave("-I"@, dirs)
}

/// The arguments of an LLVM resource-converter invocation on an
/// already-expanded file: the output path, UTF-8 source interpretation, the
/// skip-own-preprocessing switch when the installed version advertises it,
/// and the expanded file.
pub open spec fn llvm_rc_args(
    out_file: Seq<char>,
    has_no_preprocess: bool,
    preprocessed: Seq<char>,
) -> Seq<Seq<char>> {
    seq!["/fo"@, out_file, "/C"@, "65001"@] + (if has_no_preprocess {
        seq!["/no-preprocess"@]
    } else {
        Seq::<Seq<char>>::empty()
    }) + seq!["--"@, preprocessed]
}

/// The arguments of an `RC.EXE` invocation.
pub open spec fn msvc_rc_args(
    resource: Seq<char>,
    out_file: Seq<char>,
    out_dir: Seq<char>,
    macros: Seq<Seq<char>>,
    dirs: Seq<Seq<char>>,
) -> Seq<Seq<char>> {
    seq!["/fo"@, out_file, "/I"@, out_dir] + interleave("/D"@, macros) + interleave("/I"@, dirs)
        + seq![resource]
}

/// Build the cross `windres` invocation: the input file, COFF output, the
/// computed output path, the output directory as an implicit include
/// directory, and the bundle behind `-D` and `--include-dir` flags.
pub fn windres_invocation(
    executable: &String,
    out_dir: &str,
    out_file: &str,
    resource: &str,
    parameters: &ParameterBundle,
) -> (r: Invocation)
    ensures
        r.program == executable,
        r.args.deep_view() == windres_args(
            resource@,
            out_file@,
            out_dir@,
            parameters.macros.deep_view(),
            parameters.include_dirs.deep_view(),
        ),
{
    let program = executable.clone();
    let mut args: Vec<String> = Vec::new();
    args.push(String::from_str("--input"));
    args.push(String::from_str(resource));
    args.push(String::from_str("--output-format=coff"));
    args.push(String::from_str("--output"));
    args.push(String::from_str(out_file));
    args.push(String::from_str("--include-dir"));
    args.push(String::from_str(out_dir));
    proof {
        assert(args.deep_view() =~= seq![
            "--input"@,
            resource@,
            "--output-format=coff"@,
            "--output"@,
            out_file@,
            "--include-dir"@,
            out_dir@,
        ]);
    }
    apply_parameters(&mut args, "-D", "--include-dir", parameters);
    proof {
        assert(args.deep_view() =~= windres_args(
            resource@,
            out_file@,
            out_dir@,
            parameters.macros.deep_view(),
            parameters.include_dirs.deep_view(),
        ));
    }
    Invocation { program, args }
}

/// Build the host-native `windres` invocation, which also forces the object
/// format for the target; the bundle rides behind `-D` and `-I` flags.
pub fn native_windres_invocation(
    format: &str,
    out_dir: &str,
    out_file: &str,
    resource: &str,
    parameters: &ParameterBundle,
) -> (r: Invocation)
    ensures
        r.program@ == "windres"@,
        r.args.deep_view() == native_windres_args(
            resource@,
            format@,
            out_file@,
            out_dir@,
            parameters.macros.deep_view(),
            parameters.include_dirs.deep_view(),
        ),
{
    let program = String::from_str("windres");
    let mut args: Vec<String> = Vec::new();
    args.push(String::from_str("--input"));
    args.push(String::from_str(resource));
    args.push(String::from_str("--output-format=coff"));
    args.push(String::from_str("--target"));
    args.push(String::from_str(format));
    args.push(String::from_str("--output"));
    args.push(String::from_str(out_file));
    args.push(String::from_str("--include-dir"));
    args.push(String::from_str(out_dir));
    proof {
        assert(args.deep_view() =~= seq![
            "--input"@,
            resource@,
            "--output-format=coff"@,
            "--target"@,
            format@,
            "--output"@,
            out_file@,
            "--include-dir"@,
            out_dir@,
        ]);
    }
    apply_parameters(&mut args, "-D", "-I", parameters);
    proof {
        assert(args.deep_view() =~= native_windres_args(
            resource@,
            format@,
            out_file@,
            out_dir@,
            parameters.macros.deep_view(),
            parameters.include_dirs.deep_view(),
        ));
    }
    Invocation { program, args }
}

/// Build the LLVM resource-converter invocation on the expanded file.
///
/// The working directory for this invocation is the resource's own
/// directory, so that resources named relative to it resolve; an empty
/// parent means the current directory.
pub fn llvm_rc_invocation(
    executable: &String,
    has_no_preprocess: bool,
    out_file: &str,
    preprocessed: &str,
) -> (r: Invocation)
    ensures
        r.program == executable,
        r.args.deep_view() == llvm_rc_args(out_file@, has_no_preprocess, preprocessed@),
{
    let program = executable.clone();
    let mut args: Vec<String> = Vec::new();
    args.push(String::from_str("/fo"));
    args.push(String::from_str(out_file));
    args.push(String::from_str("/C"));
    args.push(String::from_str("65001"));
    if has_no_preprocess {
        args.push(String::from_str("/no-preprocess"));
    }
    args.push(String::from_str("--"));
    args.push(String::from_str(preprocessed));
    proof {
        assert(args.deep_view() =~= llvm_rc_args(out_file@, has_no_preprocess, preprocessed@));
    }
    Invocation { program, args }
}

/// Build the `RC.EXE` invocation: the output path, the output directory as
/// an implicit include directory, the bundle behind `/D` and `/I` flags, and
/// the resource last.
pub fn msvc_rc_invocation(
    executable: &String,
    out_dir: &str,
    out_file: &str,
    resource: &str,
    parameters: &ParameterBundle,
) -> (r: Invocation)
    ensures
        r.program == executable,
        r.args.deep_view() == msvc_rc_args(
            resource@,
            out_file@,
            out_dir@,
            parameters.macros.deep_view(),
            parameters.include_dirs.deep_view(),
        ),
{
    let program = executable.clone();
    let mut args: Vec<String> = Vec::new();
    args.push(String::from_str("/fo"));
    args.push(String::from_str(out_file));
    args.push(String::from_str("/I"));
    args.push(String::from_str(out_dir));
    proof {
        assert(args.deep_view() =~= seq!["/fo"@, out_file@, "/I"@, out_dir@]);
    }
    apply_parameters(&mut args, "/D", "/I", parameters);
    args.push(String::from_str(resource));
    proof {
        assert(args.deep_view() =~= msvc_rc_args(
            resource@,
            out_file@,
            out_dir@,
            parameters.macros.deep_view(),
            parameters.include_dirs.deep_view(),
        ));
    }
    Invocation { program, args }
}

/// Everything to run for one compilation, by variant.
pub enum CompilePlan {
    /// One direct `windres` invocation.
    WindRes {
        /// The process to run.
        invocation: Invocation,
        /// The object file it produces.
        out_file: String,
    },
    /// A preprocessing pass, then the resource-converter invocation, run
    /// from the resource's own directory.
    LlvmRc {
        /// The C-preprocessor pass to run first.
        preprocess: PreprocessPlan,
        /// The resource-converter process to run on the expanded file.
        invocation: Invocation,
        /// The invocation's working directory: the resource's directory, or
        /// the current directory when the resource is a bare name.
        work_dir: String,
        /// The object file the invocation produces.
        out_file: String,
    },
    /// One direct `RC.EXE` invocation.
    MsvcRc {
        /// The process to run.
        invocation: Invocation,
        /// The object file it produces.
        out_file: String,
    },
}

impl Compiler {
    /// Construct the full compilation plan for a resource: the variant's own
    /// command line, the output path its linker step expects, and, for LLVM's
    /// resource converter, the preceding preprocessing pass.
    ///
    /// `driver_like_msvc` says whether the C-preprocessor driver answers to
    /// an MSVC-style command line; it matters only to the LLVM variant.
    pub fn plan_compile(
        &self,
        out_dir: &str,
        prefix: &str,
        resource: &str,
        parameters: &ParameterBundle,
        driver_like_msvc: bool,
    ) -> (r: CompilePlan)
        ensures
            self.kind is WindRes ==> (r matches CompilePlan::WindRes { invocation, out_file } && {
                &&& out_file@ == out_dir@ + "/lib"@ + prefix@ + ".a"@
                &&& invocation.program == self.executable
                &&& invocation.args.deep_view() == windres_args(
                    resource@,
                    out_file@,
                    out_dir@,
                    parameters.macros.deep_view(),
                    parameters.include_dirs.deep_view(),
                )
            }),
            self.kind matches CompilerKind::LlvmRc { has_no_preprocess } ==> (r
                matches CompilePlan::LlvmRc { preprocess, invocation, work_dir, out_file } && {
                &&& out_file@ == out_dir@ + "/"@ + prefix@ + ".lib"@
                &&& preprocess.output_path@ == out_dir@ + "/"@ + prefix@ + "-preprocessed.rc"@
                &&& preprocess.file@ == resource@
                &&& invocation.program == self.executable
                &&& invocation.args.deep_view() == llvm_rc_args(
                    out_file@,
                    has_no_preprocess,
                    preprocess.output_path@,
                )
                &&& exists|d: Seq<char>|
                    {
                        &&& #[trigger] is_parent_of(resource@, d)
                        &&& (d.len() == 0 ==> work_dir@ == "."@)
                        &&& (d.len() > 0 ==> work_dir@ == d)
                    }
            }),
            self.kind is MsvcRc ==> (r matches CompilePlan::MsvcRc { invocation, out_file } && {
                &&& out_file@ == out_dir@ + "/"@ + prefix@ + ".lib"@
                &&& invocation.program == self.executable
                &&& invocation.args.deep_view() == msvc_rc_args(
                    resource@,
                    out_file@,
                    out_dir@,
                    parameters.macros.deep_view(),
                    parameters.include_dirs.deep_view(),
                )
            }),
    {
        let out_file = out_file_path(out_dir, prefix, &self.kind);
        match self.kind {
            CompilerKind::WindRes => {
                let invocation = windres_invocation(
                    &self.executable,
                    out_dir,
                    out_file.as_str(),
                    resource,
                    parameters,
                );
                CompilePlan::WindRes { invocation, out_file }
            },
            CompilerKind::LlvmRc { has_no_preprocess } => {
                let preprocess = preprocess_plan(
                    out_dir,
                    prefix,
                    resource,
                    parameters,
                    driver_like_msvc,
                );
                let invocation = llvm_rc_invocation(
                    &self.executable,
                    has_no_preprocess,
                    out_file.as_str(),
                    preprocess.output_path.as_str(),
                );
                let parent = parent_dir(resource);
                let work_dir = String::from_str(or_curdir(parent));
                CompilePlan::LlvmRc { preprocess, invocation, work_dir, out_file }
            },
            CompilerKind::MsvcRc => {
                let invocation = msvc_rc_invocation(
                    &self.executable,
                    out_dir,
                    out_file.as_str(),
                    resource,
                    parameters,
                );
                CompilePlan::MsvcRc { invocation, out_file }
            },
        }
    }
}

/// How a spawned process ended, as the embedding build script saw it.
pub enum SpawnOutcome {
    /// The process ran to an exit; `status` is its status line and `success`
    /// whether the exit was clean.
    Exited {
        /// Whether the process exited cleanly.
        success: bool,
        /// The status, as text.
        status: String,
    },
    /// The process could not be spawned; `error` is the operating system's
    /// message.
    SpawnFailed {
        /// The operating system's error, as text.
        error: String,
    },
}

/// The message reported when a tool runs but exits unsuccessfully.
pub fn command_failure_message(
    exec: &str,
    action: &str,
    whom: &str,
    whre: &str,
    status: &str,
) -> (r: String)
    ensures
        r@ == exec@ + " failed to "@ + action@ + " \""@ + whom@ + "\" into \""@ + whre@
            + "\" with "@ + status@,
{
    let mut r = String::from_str(exec);
    r.append(" failed to ");
    r.append(action);
    r.append(" \"");
    r.append(whom);
    r.append("\" into \"");
    r.append(whre);
    r.append("\" with ");
    r.append(status);
    r
}

/// The message reported when a tool cannot be spawned at all.
pub fn command_spawn_failure_message(
    exec: &str,
    action: &str,
    whom: &str,
    whre: &str,
    error: &str,
) -> (r: String)
    ensures
        r@ == "Couldn't execute "@ + exec@ + " to "@ + action@ + " \""@ + whom@ + "\" into \""@
            + whre@ + "\": "@ + error@,
{
    let mut r = String::from_str("Couldn't execute ");
    r.append(exec);
    r.append(" to ");
    r.append(action);
    r.append(" \"");
    r.append(whom);
    r.append("\" into \"");
    r.append(whre);
    r.append("\": ");
    r.append(error);
    r
}

/// Turn how a process ended into the typed result: success exactly on a
/// clean exit, and otherwise a message naming the tool, the action, the
/// resource, and the intended output — with the status on an unclean exit,
/// or the operating system's error when the spawn itself failed.
pub fn command_result(
    outcome: &SpawnOutcome,
    exec: &str,
    action: &str,
    whom: &str,
    whre: &str,
) -> (r: Result<(), String>)
    ensures
        r is Ok <==> outcome matches SpawnOutcome::Exited { success: true, .. },
        outcome matches SpawnOutcome::Exited { success: false, status } ==> (r matches Err(m)
            && m@ == exec@ + " failed to "@ + action@ + " \""@ + whom@ + "\" into \""@ + whre@
            + "\" with "@ + status@),
        outcome matches SpawnOutcome::SpawnFailed { error } ==> (r matches Err(m) && m@
            == "Couldn't execute "@ + exec@ + " to "@ + action@ + " \""@ + whom@ + "\" into \""@
            + whre@ + "\": "@ + error@),
{
    match outcome {
        SpawnOutcome::Exited { success: true, .. } => Ok(()),
        SpawnOutcome::Exited { success: false, status } => Err(
            command_failure_message(exec, action, whom, whre, status.as_str()),
        ),
        SpawnOutcome::SpawnFailed { error } => Err(
            command_spawn_failure_message(exec, action, whom, whre, error.as_str()),
        ),
    }
}

} // verus!
