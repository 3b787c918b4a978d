//! Compiler variants and the variant classifier.
//!
//! An arbitrary executable (for instance one named by an `RC` override
//! variable) is classified by running it with a two-flag probe — `-V`, the
//! version flag GNU `windres` understands, together with `/?`, the help flag
//! LLVM-RC and Microsoft `RC.EXE` understand; each tool ignores the flag it
//! does not know — and inspecting the start of its standard output.  That
//! inspection is pure and lives here; running the probe is the embedding
//! build script's job.

use vstd::prelude::*;

verus! {

use vstd::utf8::is_ascii_chars;
use crate::byteseq::bytes_contain;
use crate::byteseq::bytes_start_with;
use crate::byteseq::seq_contains;
use crate::byteseq::seq_starts_with;
use crate::strutil::ascii_bytes;
use crate::strutil::str_ascii_bytes;

/// The family a resource compiler belongs to, together with the data its
/// command line needs.
#[derive(Clone, Copy, Debug, PartialEq, Eq, Structural)]
pub enum CompilerKind {
    /// GNU `windres`.
    WindRes,
    /// LLVM's resource converter.
    ///
    /// `has_no_preprocess` records whether the installed version advertises a
    /// switch for skipping its own preprocessing pass.
    LlvmRc { has_no_preprocess: bool },
    /// Microsoft `RC.EXE`.
    MsvcRc,
}

/// A discovered resource compiler: an executable name or path, classified.
///
/// Once constructed the pairing is never mutated; re-probing happens only by
/// constructing a new value.
#[derive(Clone, Debug)]
pub struct Compiler {
    /// Which family the executable belongs to.
    pub kind: CompilerKind,
    /// The executable's name or path, as handed to the process spawner.
    pub executable: String,
}

/// The output prefix that identifies GNU `windres`.
pub open spec fn gnu_signature() -> Seq<u8> {
    ascii_bytes("GNU windres"@)
}

/// The first output prefix that identifies LLVM's resource converter.
pub open spec fn llvm_signature_short() -> Seq<u8> {
    ascii_bytes("OVERVIEW: Resource Converter"@)
}

/// The second output prefix that identifies LLVM's resource converter.
pub open spec fn llvm_signature_long() -> Seq<u8> {
    ascii_bytes("OVERVIEW: LLVM Resource Converter"@)
}

/// The substring whose presence in the help text advertises the
/// skip-own-preprocessing switch of LLVM's resource converter.
pub open spec fn no_preprocess_signature() -> Seq<u8> {
    ascii_bytes("no-preprocess"@)
}

/// What the probe output of an executable says about its variant:
/// `None` when the output identifies no known resource compiler.
pub open spec fn spec_classify(out: Seq<u8>) -> Option<CompilerKind> {
    if seq_starts_with(out, gnu_signature()) {
        Some(CompilerKind::WindRes)
    } else if seq_starts_with(out, llvm_signature_short()) || seq_starts_with(
        out,
        llvm_signature_long(),
    ) {
        Some(
            CompilerKind::LlvmRc { has_no_preprocess: seq_contains(out, no_preprocess_signature()) },
        )
    } else {
        None
    }
}

/// The GNU `windres` signature as a byte vector.
pub fn gnu_signature_bytes() -> (r: Vec<u8>)
    ensures
        r@ == gnu_signature(),
{
    proof {
        reveal_strlit("GNU windres");
        assert(is_ascii_chars("GNU windres"@));
    }
    str_ascii_bytes("GNU windres")
}

/// The short LLVM signature as a byte vector.
pub fn llvm_signature_short_bytes() -> (r: Vec<u8>)
    ensures
        r@ == llvm_signature_short(),
{
    proof {
        reveal_strlit("OVERVIEW: Resource Converter");
        assert(is_ascii_chars("OVERVIEW: Resource Converter"@));
    }
    str_ascii_bytes("OVERVIEW: Resource Converter")
}

/// The long LLVM signature as a byte vector.
pub fn llvm_signature_long_bytes() -> (r: Vec<u8>)
    ensures
        r@ == llvm_signature_long(),
{
    proof {
        reveal_strlit("OVERVIEW: LLVM Resource Converter");
        assert(is_ascii_chars("OVERVIEW: LLVM Resource Converter"@));
    }
    str_ascii_bytes("OVERVIEW: LLVM Resource Converter")
}

/// The skip-own-preprocessing advertisement as a byte vector.
pub fn no_preprocess_signature_bytes() -> (r: Vec<u8>)
    ensures
        r@ == no_preprocess_signature(),
{
    proof {
        reveal_strlit("no-preprocess");
        assert(is_ascii_chars("no-preprocess"@));
    }
    str_ascii_bytes("no-preprocess")
}

/// Classify an executable from the standard output of its two-flag probe.
///
/// The start of the output names the variant; for LLVM's resource converter
/// the whole output is additionally scanned for the skip-own-preprocessing
/// advertisement.  `None` means the output identifies no known resource
/// compiler.
pub fn classify_probe_output(out: &Vec<u8>) -> (r: Option<CompilerKind>)
    ensures
        r == spec_classify(out@),
{
    let gnu = gnu_signature_bytes();
    if bytes_start_with(out, &gnu) {
        return Some(CompilerKind::WindRes);
    }
    let llvm_short = llvm_signature_short_bytes();
    let llvm_long = llvm_signature_long_bytes();
    if bytes_start_with(out, &llvm_short) || bytes_start_with(out, &llvm_long) {
        let nopre = no_preprocess_signature_bytes();
        return Some(CompilerKind::LlvmRc { has_no_preprocess: bytes_contain(out, &nopre) });
    }
    None
}

/// Classification looks only at the probe output: two probes of one
/// executable that print the same text are classified the same way, variant
/// and skip-own-preprocessing flag alike.
pub proof fn lemma_classification_deterministic(out1: Seq<u8>, out2: Seq<u8>)
    requires
        out1 == out2,
    ensures
        spec_classify(out1) == spec_classify(out2),
{
}

/// Output that starts with the GNU `windres` signature is classified as
/// `WindRes`, whatever the rest of the output holds.
pub proof fn lemma_gnu_prefix_classifies_windres(out: Seq<u8>)
    requires
        seq_starts_with(out, gnu_signature()),
    ensures
        spec_classify(out) == Some(CompilerKind::WindRes),
{
}

/// Output that starts with either signature of LLVM's resource converter is
/// classified as `LlvmRc`, and its skip-own-preprocessing flag is set exactly
/// when the advertisement substring occurs anywhere in the output.
pub proof fn lemma_llvm_prefix_classifies_llvm_rc(out: Seq<u8>)
    requires
        seq_starts_with(out, llvm_signature_short()) || seq_starts_with(
            out,
            llvm_signature_long(),
        ),
    ensures
        spec_classify(out) == Some(
            CompilerKind::LlvmRc {
                has_no_preprocess: seq_contains(out, no_preprocess_signature()),
            },
        ),
{
    assert(!seq_starts_with(out, gnu_signature())) by {
        reveal_strlit("GNU windres");
        reveal_strlit("OVERVIEW: Resource Converter");
        reveal_strlit("OVERVIEW: LLVM Resource Converter");
        if seq_starts_with(out, gnu_signature()) {
            assert(out.subrange(0, gnu_signature().len() as int)[0] == gnu_signature()[0]);
            if seq_starts_with(out, llvm_signature_short()) {
                assert(out.subrange(0, llvm_signature_short().len() as int)[0]
                    == llvm_signature_short()[0]);
            } else {
                assert(out.subrange(0, llvm_signature_long().len() as int)[0]
                    == llvm_signature_long()[0]);
            }
        }
    }
}

} // verus!
