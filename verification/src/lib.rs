//! Discovery and invocation logic for Windows resource compilers.
//!
//! A resource script (icons, version information, an application manifest)
//! must be compiled to a linkable COFF object before a Windows executable can
//! embed it.  Three toolchain families can do that job — GNU `windres`,
//! LLVM's `llvm-rc`, and Microsoft's `RC.EXE` — and each wants a different
//! command line, a different output name, and a different way of being found.
//!
//! This crate holds the decision core: classifying the build target,
//! resolving override variables, classifying a candidate executable from its
//! diagnostic output, searching the Windows SDK installation roots, building
//! the exact process invocations, and reporting the outcome.  Everything that
//! touches the operating system — spawning processes, reading the registry or
//! the environment, listing directories — is performed by the embedding build
//! script, which drives the state machines defined here and feeds their
//! answers back as plain values.

use vstd::prelude::*;

pub mod byteseq;
pub mod compiler;
pub mod incpath;
pub mod invoke;
pub mod locate;
pub mod manifest;
pub mod params;
pub mod paths;
pub mod report;
pub mod sdk;
pub mod strutil;
pub mod target;

verus! {

/// Outcome of a resource-compilation request.
///
/// `NotWindows` signals an inapplicable (non-Windows-like) target; it is not
/// an error.  `NotAttempted` means the target is Windows-like but no usable
/// resource compiler was found; the reason names the missing tool, or
/// explains why none was looked for.  `Failed` means a compiler was found (or
/// explicitly requested) but classification or invocation failed.
#[must_use]
#[derive(Clone, Debug, PartialEq, Eq)]
pub enum CompilationResult {
    /// not building for windows
    NotWindows,
    /// built, linked
    Succeeded,
    /// building for windows, but the environment cannot compile a resource
    NotAttempted(String),
    /// environment can compile a resource, but has failed to do so
    Failed(String),
}

impl CompilationResult {
    /// `Ok(())` if `NotWindows`, `Succeeded`, or `NotAttempted`; `Err(self)` if `Failed`.
    ///
    /// Use this when the resource is cosmetic and a missing toolchain is
    /// acceptable.
    pub fn manifest_optional(self) -> (r: Result<(), CompilationResult>)
        ensures
            r is Ok <==> !(self is Failed),
            r matches Err(e) ==> e == self,
    {
        match self {
            CompilationResult::NotWindows | CompilationResult::Succeeded
            | CompilationResult::NotAttempted(..) => Ok(()),
            err @ CompilationResult::Failed(..) => Err(err),
        }
    }

    /// `Ok(())` if `NotWindows` or `Succeeded`; `Err(self)` if `NotAttempted` or `Failed`.
    ///
    /// Use this when the resource is functionally required, so that a missing
    /// toolchain is also an error.
    pub fn manifest_required(self) -> (r: Result<(), CompilationResult>)
        ensures
            r is Ok <==> (self is NotWindows || self is Succeeded),
            r matches Err(e) ==> e == self,
    {
        match self {
            CompilationResult::NotWindows | CompilationResult::Succeeded => Ok(()),
            err @ CompilationResult::NotAttempted(..) => Err(err),
            err @ CompilationResult::Failed(..) => Err(err),
        }
    }
}

} // verus!
