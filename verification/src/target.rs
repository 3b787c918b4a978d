//! Classification of target and host identifiers.
//!
//! A target identifier is a platform triple such as `x86_64-pc-windows-msvc`.
//! Its suffix decides whether resource compilation applies at all and which
//! toolchain family is expected; its leading architecture segment names the
//! MinGW cross `windres` executable.

use vstd::prelude::*;

verus! {

use vstd::string::StrSliceExecFns;
use vstd::string::StringExecFns;
use crate::byteseq::seq_starts_with;
use crate::strutil::concat2;
use crate::strutil::concat3;
use crate::strutil::dash_to_underscore;
use crate::strutil::dashes_to_underscores;
use crate::strutil::find_char;
use crate::strutil::seq_ends_with;
use crate::strutil::str_ends_with;
use crate::strutil::str_starts_with;

/// What a target identifier says about resource compilation.
#[derive(Clone, Copy, Debug, PartialEq, Eq, Structural)]
pub enum TargetFamily {
    /// Not a Windows-like target: resource compilation is inapplicable.
    NotWindows,
    /// A MinGW target, served by GNU `windres`.
    MinGw,
    /// An MSVC-ABI target, served by LLVM's resource converter or `RC.EXE`.
    Msvc,
}

/// A MinGW target: its environment suffix indicates a GNU or GNU-with-LLVM
/// toolchain.
pub open spec fn is_mingw_target(t: Seq<char>) -> bool {
    seq_ends_with(t, "-windows-gnu"@) || seq_ends_with(t, "-windows-gnullvm"@)
}

/// An MSVC-ABI target.
pub open spec fn is_msvc_target(t: Seq<char>) -> bool {
    seq_ends_with(t, "-windows-msvc"@)
}

/// The family of a target identifier.
pub open spec fn spec_target_family(t: Seq<char>) -> TargetFamily {
    if is_mingw_target(t) {
        TargetFamily::MinGw
    } else if is_msvc_target(t) {
        TargetFamily::Msvc
    } else {
        TargetFamily::NotWindows
    }
}

/// Classify a target identifier by its suffix.
pub fn target_family(target: &str) -> (r: TargetFamily)
    ensures
        r == spec_target_family(target@),
{
    if str_ends_with(target, "-windows-gnu") || str_ends_with(target, "-windows-gnullvm") {
        TargetFamily::MinGw
    } else if str_ends_with(target, "-windows-msvc") {
        TargetFamily::Msvc
    } else {
        TargetFamily::NotWindows
    }
}

/// `r` is the expected cross `windres` name for the target `t`: the segment
/// of `t` before its first dash (empty when `t` has no dash), followed by
/// `-w64-mingw32-windres`.
pub open spec fn is_windres_name_for(t: Seq<char>, r: Seq<char>) -> bool {
    if exists|i: int| 0 <= i < t.len() && t[i] == '-' {
        exists|i: int|
            {
                &&& 0 <= i < t.len()
                &&& t[i] == '-'
                &&& (forall|j: int| 0 <= j < i ==> t[j] != '-')
                &&& r == t.subrange(0, i) + "-w64-mingw32-windres"@
            }
    } else {
        r == "-w64-mingw32-windres"@
    }
}

/// Synthesize the expected cross `windres` executable name for a target:
/// its architecture segment followed by `-w64-mingw32-windres`.
pub fn mingw_windres_name(target: &str) -> (r: String)
    ensures
        is_windres_name_for(target@, r@),
{
    match find_char(target, '-') {
        Some(i) => {
            let arch = target.substring_char(0, i);
            let r = concat2(arch, "-w64-mingw32-windres");
            proof {
                assert(0 <= i < target@.len() && target@[i as int] == '-');
            }
            r
        },
        None => String::from_str("-w64-mingw32-windres"),
    }
}

/// The override variable scoped to the exact target: `RC_<target>`.
pub fn rc_var_exact(target: &str) -> (r: String)
    ensures
        r@ == "RC_"@ + target@,
{
    concat2("RC_", target)
}

/// The override variable scoped to the target with dashes written as
/// underscores: `RC_<target-with-underscores>`.
pub fn rc_var_underscored(target: &str) -> (r: String)
    ensures
        r@ == "RC_"@ + target@.map_values(|c: char| dash_to_underscore(c)),
{
    let t = dashes_to_underscores(target);
    concat2("RC_", t.as_str())
}

/// The architecture of the machine running the build, read off the prefix of
/// its host identifier.  It decides which architecture-specific tool
/// directory of an SDK installation holds natively runnable tools.
#[derive(Clone, Copy, Debug, PartialEq, Eq, Structural)]
pub enum HostArch {
    /// 32-bit x86, also the fallback for unrecognized prefixes.
    X86,
    /// 64-bit x86.
    X64,
    /// 64-bit ARM.
    AArch64,
}

/// The architecture named by a host identifier's prefix.
pub open spec fn spec_host_arch(h: Seq<char>) -> HostArch {
    if seq_starts_with(h, "x86_64"@) {
        HostArch::X64
    } else if seq_starts_with(h, "aarch64"@) {
        HostArch::AArch64
    } else {
        HostArch::X86
    }
}

/// Classify a host identifier by its architecture prefix.
pub fn host_arch(host: &str) -> (r: HostArch)
    ensures
        r == spec_host_arch(host@),
{
    if str_starts_with(host, "x86_64") {
        HostArch::X64
    } else if str_starts_with(host, "aarch64") {
        HostArch::AArch64
    } else {
        HostArch::X86
    }
}

/// The object-format name handed to a host-native `windres` for a target,
/// when no override names one: chosen by the target's architecture prefix.
pub open spec fn spec_windres_format(t: Seq<char>) -> Seq<char> {
    if seq_starts_with(t, "x86_64"@) {
        "pe-x86-64"@
    } else if seq_starts_with(t, "aarch64"@) {
        "pe-aarch64-little"@
    } else {
        "pe-i386"@
    }
}

/// The object-format name a host-native `windres` is told to emit: an
/// override value when the environment carries one, else the format matching
/// the target's architecture prefix.
pub fn windres_format(chost_override: Option<String>, target: &str) -> (r: String)
    ensures
        match chost_override {
            Some(c) => r@ == c@,
            None => r@ == spec_windres_format(target@),
        },
{
    match chost_override {
        Some(c) => c,
        None => {
            if str_starts_with(target, "x86_64") {
                String::from_str("pe-x86-64")
            } else if str_starts_with(target, "aarch64") {
                String::from_str("pe-aarch64-little")
            } else {
                String::from_str("pe-i386")
            }
        },
    }
}

} // verus!
