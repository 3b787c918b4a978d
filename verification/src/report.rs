//! The result reporter and the compilation-request glue.
//!
//! A located (or missed) compiler becomes a [`ResourceCompiler`] handle; its
//! probe outcome maps onto [`CompilationResult`]; and a successful
//! compilation turns into the link directives the build orchestrator reads,
//! chosen by whether the crate has binaries and the compiler is recent
//! enough to take per-binary link arguments.

use vstd::prelude::*;

verus! {

use vstd::string::StringExecFns;
use crate::CompilationResult;
use crate::byteseq::seq_contains;
use crate::compiler::Compiler;
use crate::locate::ProbeOutcome;
use crate::strutil::concat2;
use crate::strutil::concat3;
use crate::strutil::str_contains;

/// A resource compiler handle: the outcome of one probe, constructed once
/// per compilation request and never mutated — re-probing happens only by
/// constructing a new handle.
pub struct ResourceCompiler {
    /// How the toolchain search ended.
    pub probed: ProbeOutcome,
}

impl ResourceCompiler {
    /// Wrap a finished toolchain search.
    pub fn new(probed: ProbeOutcome) -> (r: ResourceCompiler)
        ensures
            r.probed == probed,
    {
        ResourceCompiler { probed }
    }

    /// The reason no compilation can happen, or `None` when a compiler is at
    /// hand: the empty string for a target that is not Windows-like, the
    /// missing tool's name or the classification failure otherwise.
    pub fn is_supported(&self) -> (r: Option<String>)
        ensures
            match self.probed {
                ProbeOutcome::Found(_) => r is None,
                ProbeOutcome::NotWindows => r matches Some(m) && m@.len() == 0,
                ProbeOutcome::NotAttempted(reason) => r matches Some(m) && m@ == reason@,
                ProbeOutcome::ClassificationFailed(reason) => r matches Some(m) && m@ == reason@,
            },
    {
        match &self.probed {
            ProbeOutcome::Found(_) => None,
            ProbeOutcome::NotWindows => Some(String::new()),
            ProbeOutcome::NotAttempted(reason) => Some(reason.clone()),
            ProbeOutcome::ClassificationFailed(reason) => Some(reason.clone()),
        }
    }

    /// The compiler at hand, if the search found one.
    pub fn compiler(&self) -> (r: Option<&Compiler>)
        ensures
            match self.probed {
                ProbeOutcome::Found(c) => r matches Some(rc) && *rc == c,
                _ => r is None,
            },
    {
        match &self.probed {
            ProbeOutcome::Found(c) => Some(c),
            _ => None,
        }
    }
}

/// The result that ends a compilation request before any invocation:
/// inapplicable targets are not errors, a missing tool is recoverable by
/// caller policy, and a classification failure of an explicitly requested
/// override is a hard failure, never downgraded.  `None` means a compiler is
/// at hand and the request goes on to the invocation builder.
pub fn locate_result(probed: &ProbeOutcome) -> (r: Option<CompilationResult>)
    ensures
        match probed {
            ProbeOutcome::Found(_) => r is None,
            ProbeOutcome::NotWindows => r == Some(CompilationResult::NotWindows),
            ProbeOutcome::NotAttempted(reason) => r matches Some(
                CompilationResult::NotAttempted(m),
            ) && m@ == reason@,
            ProbeOutcome::ClassificationFailed(reason) => r matches Some(
                CompilationResult::Failed(m),
            ) && m@ == reason@,
        },
{
    match probed {
        ProbeOutcome::Found(_) => None,
        ProbeOutcome::NotWindows => Some(CompilationResult::NotWindows),
        ProbeOutcome::NotAttempted(reason) => Some(
            CompilationResult::NotAttempted(reason.clone()),
        ),
        ProbeOutcome::ClassificationFailed(reason) => Some(
            CompilationResult::Failed(reason.clone()),
        ),
    }
}

impl CompilationResult {
    /// The human-readable report of this outcome.
    pub fn message(&self) -> (r: String)
        ensures
            self is NotWindows ==> r@ == "embed-resource: not building for windows"@,
            self is Succeeded ==> r@ == "embed-resource: OK"@,
            self matches CompilationResult::NotAttempted(why) ==> r@ == (if seq_contains(
                why@,
                " "@,
            ) {
                "embed-resource: compilation not attempted: "@ + why@
            } else {
                "embed-resource: compilation not attempted: missing compiler: "@ + why@
            }),
            self matches CompilationResult::Failed(err) ==> r@ == "embed-resource: "@ + err@,
    {
        match self {
            CompilationResult::NotWindows => String::from_str(
                "embed-resource: not building for windows",
            ),
            CompilationResult::Succeeded => String::from_str("embed-resource: OK"),
            CompilationResult::NotAttempted(why) => {
                if str_contains(why.as_str(), " ") {
                    concat2("embed-resource: compilation not attempted: ", why.as_str())
                } else {
                    concat2(
                        "embed-resource: compilation not attempted: missing compiler: ",
                        why.as_str(),
                    )
                }
            },
            CompilationResult::Failed(err) => concat2("embed-resource: ", err.as_str()),
        }
    }
}

/// The per-binary link directive for one named binary:
/// `cargo:rustc-link-arg-bin=<bin>=<object>`.
pub fn link_arg_bin_directive(bin: &str, out_file: &str) -> (r: String)
    ensures
        r@ == "cargo:rustc-link-arg-bin="@ + bin@ + "="@ + out_file@,
{
    let head = concat3("cargo:rustc-link-arg-bin=", bin, "=");
    concat2(head.as_str(), out_file)
}

/// The link directive for test binaries: `cargo:rustc-link-arg-tests=<object>`.
pub fn link_arg_tests_directive(out_file: &str) -> (r: String)
    ensures
        r@ == "cargo:rustc-link-arg-tests="@ + out_file@,
{
    concat2("cargo:rustc-link-arg-tests=", out_file)
}

/// The link directive for benchmarks: `cargo:rustc-link-arg-benches=<object>`.
pub fn link_arg_benches_directive(out_file: &str) -> (r: String)
    ensures
        r@ == "cargo:rustc-link-arg-benches="@ + out_file@,
{
    concat2("cargo:rustc-link-arg-benches=", out_file)
}

/// The link directive for examples: `cargo:rustc-link-arg-examples=<object>`.
pub fn link_arg_examples_directive(out_file: &str) -> (r: String)
    ensures
        r@ == "cargo:rustc-link-arg-examples="@ + out_file@,
{
    concat2("cargo:rustc-link-arg-examples=", out_file)
}

/// The link directive for every artifact: `cargo:rustc-link-arg=<object>`.
pub fn link_arg_all_directive(out_file: &str) -> (r: String)
    ensures
        r@ == "cargo:rustc-link-arg="@ + out_file@,
{
    concat2("cargo:rustc-link-arg=", out_file)
}

/// The directives a plain compilation emits: with binaries and a compiler
/// that takes per-binary link arguments, one `cargo:rustc-link-arg-bins`
/// line; otherwise the legacy pair of a native search path and a library
/// directive, which links the resource to the crate's library instead.
pub fn binary_link_directives(
    hasbins: bool,
    per_binary_args_supported: bool,
    out_file: &str,
    out_dir: &str,
    prefix: &str,
) -> (r: Vec<String>)
    ensures
        (hasbins && per_binary_args_supported) ==> r.deep_view() =~= seq![
            "cargo:rustc-link-arg-bins="@ + out_file@,
        ],
        !(hasbins && per_binary_args_supported) ==> r.deep_view() =~= seq![
            "cargo:rustc-link-search=native="@ + out_dir@,
            "cargo:rustc-link-lib=dylib="@ + prefix@,
        ],
{
    let mut r: Vec<String> = Vec::new();
    if hasbins && per_binary_args_supported {
        r.push(concat2("cargo:rustc-link-arg-bins=", out_file));
        proof {
            assert(r.deep_view() =~= seq!["cargo:rustc-link-arg-bins="@ + out_file@]);
        }
    } else {
        r.push(concat2("cargo:rustc-link-search=native=", out_dir));
        r.push(concat2("cargo:rustc-link-lib=dylib=", prefix));
        proof {
            assert(r.deep_view() =~= seq![
                "cargo:rustc-link-search=native="@ + out_dir@,
                "cargo:rustc-link-lib=dylib="@ + prefix@,
            ]);
        }
    }
    r
}

} // verus!
