//! The Windows SDK tool search: a state machine over registry, filesystem,
//! and Visual-Studio-locator answers.
//!
//! `RC.EXE` and its siblings live under versioned, OS-registered kit roots,
//! not on `PATH`.  The search tries, in order: the Windows 10 kits layout
//! with versioned tool subdirectories; the flat kits layouts registered as
//! `KitsRoot10`, `KitsRoot81`, and `KitsRoot`; the legacy SDK's current
//! install folder; and finally the roots reported by a Visual-Studio-locator
//! query.  Architecture-specific subdirectories are chosen by the machine
//! running the build — the host — since the tool must run natively.
//!
//! Like the toolchain locator, the search never touches the system: each
//! [`SdkSearch::step`] consumes the answer to the previous [`SdkAction`] and
//! returns the next one, until the action is [`SdkAction::Done`].  While the
//! Windows 10 kit root is at hand, the search also performs the one-time
//! include-path extension (see [`crate::incpath`]).

use vstd::prelude::*;

verus! {

use vstd::pervasive::unreached;
use vstd::string::StringExecFns;
use crate::incpath::extended_include_value;
use crate::incpath::spec_extended_include;
use crate::paths::file_name_part;
use crate::paths::is_file_name_of;
use crate::paths::is_parent_of;
use crate::paths::parent_dir;
use crate::strutil::concat2;
use crate::strutil::concat3;
use crate::strutil::concat4;
use crate::target::HostArch;

/// What the search asks the embedding build script to do next.
pub enum SdkAction {
    /// Read a string value under the machine-wide registry hive.
    ReadRegistryString {
        /// The subkey under the machine-wide hive.
        subkey: String,
        /// The value's name.
        value: String,
    },
    /// Claim the process-wide one-time include-path extension flag and
    /// answer with whether it had already been claimed.
    ClaimIncludeGuard,
    /// Read the named environment variable.
    ReadEnvVar(String),
    /// List the paths of the directories two levels under the given
    /// directory: for each version directory in it, each of that version's
    /// subdirectories, in order.
    ListIncludeSubdirs(String),
    /// Ask the detected MSVC compiler environment for its own include
    /// paths, as one variable-ready string.
    FindClInclude,
    /// Set the named environment variable to the given value.
    SetEnvVar {
        /// The variable's name.
        name: String,
        /// The value to set.
        value: String,
    },
    /// List the names of the subdirectories of the given directory (readable
    /// directories with text names only), in order.
    ListDirNames(String),
    /// Report whether the given path is a directory.
    CheckDir(String),
    /// Report whether the given path exists.
    CheckFile(String),
    /// Run the Visual-Studio-locator query and report the SDK root it
    /// names, if any.
    VsSearch,
    /// The search is over; this is the tool's path, if one was found.
    Done(Option<String>),
}

/// The answer to an [`SdkAction`], fed back into [`SdkSearch::step`].
pub enum SdkEvent {
    /// The registry value, or `None` when the key or value is absent.
    Reg(Option<String>),
    /// Whether the include-path extension had already been claimed.
    GuardWasSet(bool),
    /// The variable's value, or `None` when it is not set.
    EnvVar(Option<String>),
    /// The listed include subdirectory paths.
    IncludeSubdirs(Vec<String>),
    /// The compiler environment's include paths, if detected.
    ClInclude(Option<String>),
    /// The variable was set.
    EnvSet,
    /// The listed subdirectory names.
    DirNames(Vec<String>),
    /// Whether the path is a directory.
    IsDir(bool),
    /// Whether the path exists.
    Exists(bool),
    /// The SDK root the locator query named, if any.
    VsRoot(Option<String>),
}

/// Where the search stands.
pub enum SdkPhase {
    /// Awaiting the Windows 10 kit root for the versioned-layout attempt.
    Kits10Reg,
    /// Awaiting the include-path extension flag.
    IncludeGuard { root: String },
    /// Awaiting the current include-path variable.
    IncludeEnv { root: String },
    /// Awaiting the versioned include subdirectories under the kit root.
    IncludeList { root: String, existing: String },
    /// Awaiting the compiler environment's include paths.
    IncludeCl { root: String, existing: String, subdirs: Vec<String> },
    /// Awaiting confirmation that the extended variable was set.
    IncludeSet { root: String },
    /// Awaiting the versioned tool directories under the kit root.
    Kits10Bins { root: String },
    /// Awaiting whether the candidate directory for version `names[i]` exists.
    Kits10Dir { root: String, names: Vec<String>, i: usize, dir: String },
    /// Awaiting whether the tool exists in the confirmed directory.
    Kits10Tool { root: String, names: Vec<String>, i: usize, path: String },
    /// Awaiting the flat kit root `j` (`KitsRoot10`, `KitsRoot81`, `KitsRoot`).
    KitsReg { j: usize },
    /// Awaiting whether the flat kit's tool directory exists.
    KitsDir { j: usize, dir: String },
    /// Awaiting whether the tool exists in the flat kit's tool directory.
    KitsTool { j: usize, path: String },
    /// Awaiting the legacy SDK's current install folder.
    LatestReg,
    /// Awaiting whether the legacy SDK's tool directory exists.
    LatestDir { dir: String },
    /// Awaiting whether the tool exists in the legacy SDK's tool directory.
    LatestTool { path: String },
    /// Awaiting the Visual-Studio-locator query.
    Vs,
    /// Awaiting whether the versioned tool directory beside the reported
    /// root exists.
    VsPrimaryDir { root: String, dir: String },
    /// Awaiting whether the tool exists in that versioned directory.
    VsPrimaryTool { root: String, path: String },
    /// Awaiting whether the unversioned tool directory beside the reported
    /// root exists.
    VsFallbackDir { dir: String },
    /// Awaiting whether the tool exists in that unversioned directory.
    VsFallbackTool { path: String },
    /// The search is over.
    Done,
}

/// The SDK tool search's state between steps.
pub struct SdkSearch {
    /// The tool looked for, such as `rc.exe`.
    pub tool: String,
    /// The architecture of the machine running the build.
    pub arch: HostArch,
    /// Where the search stands.
    pub phase: SdkPhase,
}

/// The registry subkey under which the kit roots are recorded.
pub open spec fn kits_subkey() -> Seq<char> {
    "SOFTWARE\\Microsoft\\Windows Kits\\Installed Roots"@
}

/// The registry subkey of the legacy SDK installations.
pub open spec fn sdks_subkey() -> Seq<char> {
    "SOFTWARE\\Microsoft\\Microsoft SDKs\\Windows"@
}

/// The flat kit-root value names, in the order they are tried.
pub open spec fn kits_value(j: int) -> Seq<char> {
    if j == 0 {
        "KitsRoot10"@
    } else if j == 1 {
        "KitsRoot81"@
    } else {
        "KitsRoot"@
    }
}

/// The choice among three architecture-specific names.
pub open spec fn arch_pick(arch: HostArch, a: Seq<char>, b: Seq<char>, c: Seq<char>) -> Seq<char> {
    match arch {
        HostArch::X86 => a,
        HostArch::X64 => b,
        HostArch::AArch64 => c,
    }
}

/// The candidate tool directory for version `name` under a Windows 10 kit
/// root.
pub open spec fn kits10_candidate(root: Seq<char>, name: Seq<char>, arch: HostArch) -> Seq<char> {
    root + "/bin/"@ + name + "/"@ + arch_pick(arch, "x86"@, "x64"@, "arm64"@)
}

/// The candidate tool directory under a flat kit root.
pub open spec fn kits_flat_dir(root: Seq<char>, arch: HostArch) -> Seq<char> {
    root + "/"@ + arch_pick(arch, "bin/x86"@, "bin/x64"@, "bin/arm64"@)
}

/// The candidate tool directory under the legacy SDK's install folder.
pub open spec fn latest_sdk_dir(root: Seq<char>, arch: HostArch) -> Seq<char> {
    root + "/"@ + arch_pick(arch, "Bin"@, "Bin/x64"@, "Bin/arm64"@)
}

/// The versioned candidate directory derived from a locator-reported root:
/// two levels up, then `bin`, then the root's own version name, then the
/// architecture directory.
pub open spec fn is_vs_primary_dir(root: Seq<char>, dir: Seq<char>, arch: HostArch) -> bool {
    exists|v: Seq<char>, b1: Seq<char>, b2: Seq<char>|
        {
            &&& #[trigger] is_file_name_of(root, v)
            &&& #[trigger] is_parent_of(root, b1)
            &&& #[trigger] is_parent_of(b1, b2)
            &&& dir == b2 + "/bin/"@ + v + "/"@ + arch_pick(arch, "x86"@, "x64"@, "arm64"@)
        }
}

/// The unversioned candidate directory derived from a locator-reported root:
/// two levels up, then the architecture-specific tool directory.
pub open spec fn is_vs_fallback_dir(root: Seq<char>, dir: Seq<char>, arch: HostArch) -> bool {
    exists|b1: Seq<char>, b2: Seq<char>|
        {
            &&& #[trigger] is_parent_of(root, b1)
            &&& #[trigger] is_parent_of(b1, b2)
            &&& dir == b2 + "/"@ + arch_pick(arch, "bin/x86"@, "bin/x64"@, "bin/arm64"@)
        }
}

/// The post-state keeps the search's context.
pub open spec fn sdk_keeps_context(pre: SdkSearch, post: SdkSearch) -> bool {
    post.tool == pre.tool && post.arch == pre.arch
}

/// The action asks for flat kit root `j`.
pub open spec fn asks_kits_reg(a: SdkAction, j: int) -> bool {
    a matches SdkAction::ReadRegistryString { subkey, value } && subkey@ == kits_subkey()
        && value@ == kits_value(j)
}

/// The search moves on to flat kit root `j`.
pub open spec fn to_kits(pre: SdkSearch, post: SdkSearch, a: SdkAction, j: int) -> bool {
    &&& sdk_keeps_context(pre, post)
    &&& post.phase matches SdkPhase::KitsReg { j: j2 } && j2 == j
    &&& asks_kits_reg(a, j)
}

/// The search moves on to the legacy SDK lookup.
pub open spec fn to_latest(pre: SdkSearch, post: SdkSearch, a: SdkAction) -> bool {
    &&& sdk_keeps_context(pre, post)
    &&& post.phase is LatestReg
    &&& a matches SdkAction::ReadRegistryString { subkey, value } && subkey@ == sdks_subkey()
        && value@ == "CurrentInstallFolder"@
}

/// A failed flat kit lookup advances to the next root, or to the legacy SDK
/// after the last one.
pub open spec fn kits_advance(pre: SdkSearch, post: SdkSearch, a: SdkAction, j: int) -> bool {
    if j < 2 {
        to_kits(pre, post, a, j + 1)
    } else {
        to_latest(pre, post, a)
    }
}

/// The search moves on to the Visual-Studio-locator query.
pub open spec fn to_vs(pre: SdkSearch, post: SdkSearch, a: SdkAction) -> bool {
    &&& sdk_keeps_context(pre, post)
    &&& post.phase is Vs
    &&& a is VsSearch
}

/// The search ends with the tool found at `path`.
pub open spec fn done_some(post: SdkSearch, a: SdkAction, path: String) -> bool {
    &&& post.phase is Done
    &&& a matches SdkAction::Done(r) && r == Some(path)
}

/// The search ends without a tool.
pub open spec fn done_none(post: SdkSearch, a: SdkAction) -> bool {
    &&& post.phase is Done
    &&& a matches SdkAction::Done(r) && r is None
}

/// The search moves on to enumerating the versioned tool directories.
pub open spec fn to_kits10_bins(pre: SdkSearch, post: SdkSearch, a: SdkAction, root: String) -> bool {
    &&& sdk_keeps_context(pre, post)
    &&& post.phase matches SdkPhase::Kits10Bins { root: r2 } && r2 == root
    &&& a matches SdkAction::ListDirNames(d) && d@ == root@ + "/bin"@
}

/// A failed versioned candidate advances to the next version name, or to the
/// flat kit lookups after the last one.
pub open spec fn kits10_advance(
    pre: SdkSearch,
    post: SdkSearch,
    a: SdkAction,
    root: String,
    names: Vec<String>,
    i: int,
) -> bool {
    if i + 1 < names@.len() {
        &&& sdk_keeps_context(pre, post)
        &&& post.phase matches SdkPhase::Kits10Dir { root: r2, names: n2, i: i2, dir } && r2 == root
            && n2 == names && i2 == i + 1 && dir@ == kits10_candidate(
            root@,
            names.deep_view()[i + 1],
            pre.arch,
        ) && (a matches SdkAction::CheckDir(d) && d == dir)
    } else {
        to_kits(pre, post, a, 0)
    }
}

/// Well-formedness of the search state: version indices stay within the
/// version-name list.
pub open spec fn sdk_wf(l: SdkSearch) -> bool {
    match l.phase {
        SdkPhase::Kits10Dir { names, i, .. } => i < names@.len(),
        SdkPhase::Kits10Tool { names, i, .. } => i < names@.len(),
        SdkPhase::KitsReg { j } => j < 3,
        SdkPhase::KitsDir { j, .. } => j < 3,
        SdkPhase::KitsTool { j, .. } => j < 3,
        _ => true,
    }
}

/// The event kinds each phase awaits; feeding any other is a caller error.
pub open spec fn sdk_event_expected(l: SdkSearch, e: SdkEvent) -> bool {
    match l.phase {
        SdkPhase::Kits10Reg | SdkPhase::KitsReg { .. } | SdkPhase::LatestReg => e is Reg,
        SdkPhase::IncludeGuard { .. } => e is GuardWasSet,
        SdkPhase::IncludeEnv { .. } => e is EnvVar,
        SdkPhase::IncludeList { .. } => e is IncludeSubdirs,
        SdkPhase::IncludeCl { .. } => e is ClInclude,
        SdkPhase::IncludeSet { .. } => e is EnvSet,
        SdkPhase::Kits10Bins { .. } => e is DirNames,
        SdkPhase::Kits10Dir { .. } | SdkPhase::KitsDir { .. } | SdkPhase::LatestDir { .. }
            | SdkPhase::VsPrimaryDir { .. } | SdkPhase::VsFallbackDir { .. } => e is IsDir,
        SdkPhase::Kits10Tool { .. } | SdkPhase::KitsTool { .. } | SdkPhase::LatestTool { .. }
            | SdkPhase::VsPrimaryTool { .. } | SdkPhase::VsFallbackTool { .. } => e is Exists,
        SdkPhase::Vs => e is VsRoot,
        SdkPhase::Done => false,
    }
}

/// The search's transition relation: what one step turns the state into and
/// which action it requests, for every phase and the event answering it.
pub open spec fn sdk_transition(pre: SdkSearch, e: SdkEvent, post: SdkSearch, a: SdkAction) -> bool {
    match pre.phase {
        SdkPhase::Kits10Reg => match e {
            SdkEvent::Reg(Some(root)) => {
                &&& sdk_keeps_context(pre, post)
                &&& post.phase matches SdkPhase::IncludeGuard { root: r2 } && r2 == root
                &&& a is ClaimIncludeGuard
            },
            SdkEvent::Reg(None) => to_kits(pre, post, a, 0),
            _ => false,
        },
        SdkPhase::IncludeGuard { root } => match e {
            SdkEvent::GuardWasSet(true) => to_kits10_bins(pre, post, a, root),
            SdkEvent::GuardWasSet(false) => {
                &&& sdk_keeps_context(pre, post)
                &&& post.phase matches SdkPhase::IncludeEnv { root: r2 } && r2 == root
                &&& a matches SdkAction::ReadEnvVar(n) && n@ == "INCLUDE"@
            },
            _ => false,
        },
        SdkPhase::IncludeEnv { root } => match e {
            SdkEvent::EnvVar(v) => {
                &&& sdk_keeps_context(pre, post)
                &&& post.phase matches SdkPhase::IncludeList { root: r2, existing } && r2 == root
                    && (match v {
                    Some(s) => existing == s,
                    None => existing@.len() == 0,
                })
                &&& a matches SdkAction::ListIncludeSubdirs(d) && d@ == root@ + "\\Include\\"@
            },
            _ => false,
        },
        SdkPhase::IncludeList { root, existing } => match e {
            SdkEvent::IncludeSubdirs(list) => {
                &&& sdk_keeps_context(pre, post)
                &&& post.phase matches SdkPhase::IncludeCl { root: r2, existing: e2, subdirs }
                    && r2 == root && e2 == existing && subdirs == list
                &&& a is FindClInclude
            },
            _ => false,
        },
        SdkPhase::IncludeCl { root, existing, subdirs } => match e {
            SdkEvent::ClInclude(cl) => {
                &&& sdk_keeps_context(pre, post)
                &&& post.phase matches SdkPhase::IncludeSet { root: r2 } && r2 == root
                &&& a matches SdkAction::SetEnvVar { name, value } && name@ == "INCLUDE"@
                    && value@ == spec_extended_include(
                    existing@,
                    subdirs.deep_view(),
                    match cl {
                        Some(p) => Some(p@),
                        None => None,
                    },
                )
            },
            _ => false,
        },
        SdkPhase::IncludeSet { root } => match e {
            SdkEvent::EnvSet => to_kits10_bins(pre, post, a, root),
            _ => false,
        },
        SdkPhase::Kits10Bins { root } => match e {
            SdkEvent::DirNames(names) => {
                if names@.len() > 0 {
                    &&& sdk_keeps_context(pre, post)
                    &&& post.phase matches SdkPhase::Kits10Dir { root: r2, names: n2, i, dir }
                        && r2 == root && n2 == names && i == 0 && dir@ == kits10_candidate(
                        root@,
                        names.deep_view()[0],
                        pre.arch,
                    ) && (a matches SdkAction::CheckDir(d) && d == dir)
                } else {
                    to_kits(pre, post, a, 0)
                }
            },
            _ => false,
        },
        SdkPhase::Kits10Dir { root, names, i, dir } => match e {
            SdkEvent::IsDir(true) => {
                &&& sdk_keeps_context(pre, post)
                &&& post.phase matches SdkPhase::Kits10Tool { root: r2, names: n2, i: i2, path }
                    && r2 == root && n2 == names && i2 == i && path@ == dir@ + "/"@ + pre.tool@
                    && (a matches SdkAction::CheckFile(p) && p == path)
            },
            SdkEvent::IsDir(false) => kits10_advance(pre, post, a, root, names, i as int),
            _ => false,
        },
        SdkPhase::Kits10Tool { root, names, i, path } => match e {
            SdkEvent::Exists(true) => done_some(post, a, path),
            SdkEvent::Exists(false) => kits10_advance(pre, post, a, root, names, i as int),
            _ => false,
        },
        SdkPhase::KitsReg { j } => match e {
            SdkEvent::Reg(Some(root)) => {
                &&& sdk_keeps_context(pre, post)
                &&& post.phase matches SdkPhase::KitsDir { j: j2, dir } && j2 == j && dir@
                    == kits_flat_dir(root@, pre.arch) && (a matches SdkAction::CheckDir(d) && d
                    == dir)
            },
            SdkEvent::Reg(None) => kits_advance(pre, post, a, j as int),
            _ => false,
        },
        SdkPhase::KitsDir { j, dir } => match e {
            SdkEvent::IsDir(true) => {
                &&& sdk_keeps_context(pre, post)
                &&& post.phase matches SdkPhase::KitsTool { j: j2, path } && j2 == j && path@
                    == dir@ + "/"@ + pre.tool@ && (a matches SdkAction::CheckFile(p) && p == path)
            },
            SdkEvent::IsDir(false) => kits_advance(pre, post, a, j as int),
            _ => false,
        },
        SdkPhase::KitsTool { j, path } => match e {
            SdkEvent::Exists(true) => done_some(post, a, path),
            SdkEvent::Exists(false) => kits_advance(pre, post, a, j as int),
            _ => false,
        },
        SdkPhase::LatestReg => match e {
            SdkEvent::Reg(Some(root)) => {
                &&& sdk_keeps_context(pre, post)
                &&& post.phase matches SdkPhase::LatestDir { dir } && dir@ == latest_sdk_dir(
                    root@,
                    pre.arch,
                ) && (a matches SdkAction::CheckDir(d) && d == dir)
            },
            SdkEvent::Reg(None) => to_vs(pre, post, a),
            _ => false,
        },
        SdkPhase::LatestDir { dir } => match e {
            SdkEvent::IsDir(true) => {
                &&& sdk_keeps_context(pre, post)
                &&& post.phase matches SdkPhase::LatestTool { path } && path@ == dir@ + "/"@
                    + pre.tool@ && (a matches SdkAction::CheckFile(p) && p == path)
            },
            SdkEvent::IsDir(false) => to_vs(pre, post, a),
            _ => false,
        },
        SdkPhase::LatestTool { path } => match e {
            SdkEvent::Exists(true) => done_some(post, a, path),
            SdkEvent::Exists(false) => to_vs(pre, post, a),
            _ => false,
        },
        SdkPhase::Vs => match e {
            SdkEvent::VsRoot(Some(root)) => {
                &&& sdk_keeps_context(pre, post)
                &&& post.phase matches SdkPhase::VsPrimaryDir { root: r2, dir } && r2 == root
                    && is_vs_primary_dir(root@, dir@, pre.arch) && (a
                    matches SdkAction::CheckDir(d) && d == dir)
            },
            SdkEvent::VsRoot(None) => done_none(post, a),
            _ => false,
        },
        SdkPhase::VsPrimaryDir { root, dir } => match e {
            SdkEvent::IsDir(true) => {
                &&& sdk_keeps_context(pre, post)
                &&& post.phase matches SdkPhase::VsPrimaryTool { root: r2, path } && r2 == root
                    && path@ == dir@ + "/"@ + pre.tool@ && (a matches SdkAction::CheckFile(p) && p
                    == path)
            },
            SdkEvent::IsDir(false) => vs_fallback(pre, post, a, root),
            _ => false,
        },
        SdkPhase::VsPrimaryTool { root, path } => match e {
            SdkEvent::Exists(true) => done_some(post, a, path),
            SdkEvent::Exists(false) => vs_fallback(pre, post, a, root),
            _ => false,
        },
        SdkPhase::VsFallbackDir { dir } => match e {
            SdkEvent::IsDir(true) => {
                &&& sdk_keeps_context(pre, post)
                &&& post.phase matches SdkPhase::VsFallbackTool { path } && path@ == dir@ + "/"@
                    + pre.tool@ && (a matches SdkAction::CheckFile(p) && p == path)
            },
            SdkEvent::IsDir(false) => done_none(post, a),
            _ => false,
        },
        SdkPhase::VsFallbackTool { path } => match e {
            SdkEvent::Exists(true) => done_some(post, a, path),
            SdkEvent::Exists(false) => done_none(post, a),
            _ => false,
        },
        SdkPhase::Done => false,
    }
}

/// A failed versioned candidate beside the locator-reported root falls back
/// to the unversioned one.
pub open spec fn vs_fallback(pre: SdkSearch, post: SdkSearch, a: SdkAction, root: String) -> bool {
    &&& sdk_keeps_context(pre, post)
    &&& post.phase matches SdkPhase::VsFallbackDir { dir } && is_vs_fallback_dir(
        root@,
        dir@,
        pre.arch,
    ) && (a matches SdkAction::CheckDir(d) && d == dir)
}

/// What starting the search produces: the request for the Windows 10 kit
/// root.
pub open spec fn sdk_start_spec(tool: String, arch: HostArch, l: SdkSearch, a: SdkAction) -> bool {
    &&& l.tool == tool
    &&& l.arch == arch
    &&& l.phase is Kits10Reg
    &&& asks_kits_reg(a, 0)
}

impl SdkSearch {
    /// Begin the search for a tool, on a host of the given architecture.
    pub fn start(tool: String, arch: HostArch) -> (r: (SdkSearch, SdkAction))
        ensures
            sdk_start_spec(tool, arch, r.0, r.1),
            sdk_wf(r.0),
    {
        (
            SdkSearch { tool, arch, phase: SdkPhase::Kits10Reg },
            SdkAction::ReadRegistryString {
                subkey: String::from_str("SOFTWARE\\Microsoft\\Windows Kits\\Installed Roots"),
                value: String::from_str("KitsRoot10"),
            },
        )
    }

    /// The request for flat kit root `j`.
    fn kits_request(&mut self, j: usize) -> (a: SdkAction)
        requires
            j < 3,
        ensures
            to_kits(*old(self), *final(self), a, j as int),
            sdk_wf(*final(self)),
    {
        self.phase = SdkPhase::KitsReg { j };
        let value = if j == 0 {
            String::from_str("KitsRoot10")
        } else if j == 1 {
            String::from_str("KitsRoot81")
        } else {
            String::from_str("KitsRoot")
        };
        SdkAction::ReadRegistryString {
            subkey: String::from_str("SOFTWARE\\Microsoft\\Windows Kits\\Installed Roots"),
            value,
        }
    }

    /// The request for the legacy SDK's install folder.
    fn latest_request(&mut self) -> (a: SdkAction)
        ensures
            to_latest(*old(self), *final(self), a),
            sdk_wf(*final(self)),
    {
        self.phase = SdkPhase::LatestReg;
        SdkAction::ReadRegistryString {
            subkey: String::from_str("SOFTWARE\\Microsoft\\Microsoft SDKs\\Windows"),
            value: String::from_str("CurrentInstallFolder"),
        }
    }

    /// A failed flat kit lookup advances to the next root or the legacy SDK.
    fn kits_advance_request(&mut self, j: usize) -> (a: SdkAction)
        requires
            j < 3,
        ensures
            kits_advance(*old(self), *final(self), a, j as int),
            sdk_wf(*final(self)),
    {
        if j < 2 {
            self.kits_request(j + 1)
        } else {
            self.latest_request()
        }
    }

    /// The request to enumerate the versioned tool directories.
    fn kits10_bins_request(&mut self, root: String) -> (a: SdkAction)
        ensures
            to_kits10_bins(*old(self), *final(self), a, root),
            sdk_wf(*final(self)),
    {
        let listing = concat2(root.as_str(), "/bin");
        self.phase = SdkPhase::Kits10Bins { root };
        SdkAction::ListDirNames(listing)
    }

    /// The candidate check for version `names[i]`, or the move to the flat
    /// kit lookups when the versions are exhausted.
    fn kits10_try_request(&mut self, root: String, names: Vec<String>, i: usize) -> (a: SdkAction)
        requires
            i < names@.len(),
        ensures
            sdk_keeps_context(*old(self), *final(self)),
            final(self).phase matches SdkPhase::Kits10Dir { root: r2, names: n2, i: i2, dir }
                && r2 == root && n2 == names && i2 == i && dir@ == kits10_candidate(
                root@,
                names.deep_view()[i as int],
                old(self).arch,
            ) && (a matches SdkAction::CheckDir(d) && d == dir),
            sdk_wf(*final(self)),
    {
        let head = concat4(root.as_str(), "/bin/", names[i].as_str(), "/");
        let pick = arch_pick_str(self.arch, "x86", "x64", "arm64");
        let dir = concat2(head.as_str(), pick);
        let probe = dir.clone();
        self.phase = SdkPhase::Kits10Dir { root, names, i, dir };
        SdkAction::CheckDir(probe)
    }

    /// A failed versioned candidate advances to the next version name, or to
    /// the flat kit lookups.
    fn kits10_advance_request(&mut self, root: String, names: Vec<String>, i: usize) -> (a:
        SdkAction)
        requires
            i < names@.len(),
        ensures
            kits10_advance(*old(self), *final(self), a, root, names, i as int),
            sdk_wf(*final(self)),
    {
        let n = names.len();
        if i < n - 1 {
            self.kits10_try_request(root, names, i + 1)
        } else {
            self.kits_request(0)
        }
    }

    /// The tool check inside a confirmed directory.
    fn tool_path(&self, dir: &String) -> (r: String)
        ensures
            r@ == dir@ + "/"@ + self.tool@,
    {
        concat3(dir.as_str(), "/", self.tool.as_str())
    }

    /// Consume the answer to the previous action and return the next one.
    pub fn step(&mut self, event: SdkEvent) -> (a: SdkAction)
        requires
            sdk_event_expected(*old(self), event),
            sdk_wf(*old(self)),
        ensures
            sdk_transition(*old(self), event, *final(self), a),
            sdk_wf(*final(self)),
    {
        let mut phase = SdkPhase::Done;
        core::mem::swap(&mut phase, &mut self.phase);
        match phase {
            SdkPhase::Kits10Reg => match event {
                SdkEvent::Reg(Some(root)) => {
                    self.phase = SdkPhase::IncludeGuard { root };
                    SdkAction::ClaimIncludeGuard
                },
                SdkEvent::Reg(None) => self.kits_request(0),
                _ => unreached(),
            },
            SdkPhase::IncludeGuard { root } => match event {
                SdkEvent::GuardWasSet(true) => self.kits10_bins_request(root),
                SdkEvent::GuardWasSet(false) => {
                    self.phase = SdkPhase::IncludeEnv { root };
                    SdkAction::ReadEnvVar(String::from_str("INCLUDE"))
                },
                _ => unreached(),
            },
            SdkPhase::IncludeEnv { root } => match event {
                SdkEvent::EnvVar(v) => {
                    let existing = match v {
                        Some(s) => s,
                        None => String::new(),
                    };
                    let listing = concat2(root.as_str(), "\\Include\\");
                    self.phase = SdkPhase::IncludeList { root, existing };
                    SdkAction::ListIncludeSubdirs(listing)
                },
                _ => unreached(),
            },
            SdkPhase::IncludeList { root, existing } => match event {
                SdkEvent::IncludeSubdirs(list) => {
                    self.phase = SdkPhase::IncludeCl { root, existing, subdirs: list };
                    SdkAction::FindClInclude
                },
                _ => unreached(),
            },
            SdkPhase::IncludeCl { root, existing, subdirs } => match event {
                SdkEvent::ClInclude(cl) => {
                    let value = extended_include_value(
                        existing.as_str(),
                        &subdirs,
                        match &cl {
                            Some(p) => Some(p),
                            None => None,
                        },
                    );
                    self.phase = SdkPhase::IncludeSet { root };
                    SdkAction::SetEnvVar { name: String::from_str("INCLUDE"), value }
                },
                _ => unreached(),
            },
            SdkPhase::IncludeSet { root } => match event {
                SdkEvent::EnvSet => self.kits10_bins_request(root),
                _ => unreached(),
            },
            SdkPhase::Kits10Bins { root } => match event {
                SdkEvent::DirNames(names) => {
                    if names.len() > 0 {
                        self.kits10_try_request(root, names, 0)
                    } else {
                        self.kits_request(0)
                    }
                },
                _ => unreached(),
            },
            SdkPhase::Kits10Dir { root, names, i, dir } => match event {
                SdkEvent::IsDir(true) => {
                    let path = self.tool_path(&dir);
                    let probe = path.clone();
                    self.phase = SdkPhase::Kits10Tool { root, names, i, path };
                    SdkAction::CheckFile(probe)
                },
                SdkEvent::IsDir(false) => self.kits10_advance_request(root, names, i),
                _ => unreached(),
            },
            SdkPhase::Kits10Tool { root, names, i, path } => match event {
                SdkEvent::Exists(true) => {
                    self.phase = SdkPhase::Done;
                    SdkAction::Done(Some(path))
                },
                SdkEvent::Exists(false) => self.kits10_advance_request(root, names, i),
                _ => unreached(),
            },
            SdkPhase::KitsReg { j } => match event {
                SdkEvent::Reg(Some(root)) => {
                    let pick = arch_pick_str(self.arch, "bin/x86", "bin/x64", "bin/arm64");
                    let dir = concat3(root.as_str(), "/", pick);
                    let probe = dir.clone();
                    self.phase = SdkPhase::KitsDir { j, dir };
                    SdkAction::CheckDir(probe)
                },
                SdkEvent::Reg(None) => {
                    if j < 3 {
                        self.kits_advance_request(j)
                    } else {
                        unreached()
                    }
                },
                _ => unreached(),
            },
            SdkPhase::KitsDir { j, dir } => match event {
                SdkEvent::IsDir(true) => {
                    let path = self.tool_path(&dir);
                    let probe = path.clone();
                    self.phase = SdkPhase::KitsTool { j, path };
                    SdkAction::CheckFile(probe)
                },
                SdkEvent::IsDir(false) => {
                    if j < 3 {
                        self.kits_advance_request(j)
                    } else {
                        unreached()
                    }
                },
                _ => unreached(),
            },
            SdkPhase::KitsTool { j, path } => match event {
                SdkEvent::Exists(true) => {
                    self.phase = SdkPhase::Done;
                    SdkAction::Done(Some(path))
                },
                SdkEvent::Exists(false) => {
                    if j < 3 {
                        self.kits_advance_request(j)
                    } else {
                        unreached()
                    }
                },
                _ => unreached(),
            },
            SdkPhase::LatestReg => match event {
                SdkEvent::Reg(Some(root)) => {
                    let pick = arch_pick_str(self.arch, "Bin", "Bin/x64", "Bin/arm64");
                    let dir = concat3(root.as_str(), "/", pick);
                    let probe = dir.clone();
                    self.phase = SdkPhase::LatestDir { dir };
                    SdkAction::CheckDir(probe)
                },
                SdkEvent::Reg(None) => {
                    self.phase = SdkPhase::Vs;
                    SdkAction::VsSearch
                },
                _ => unreached(),
            },
            SdkPhase::LatestDir { dir } => match event {
                SdkEvent::IsDir(true) => {
                    let path = self.tool_path(&dir);
                    let probe = path.clone();
                    self.phase = SdkPhase::LatestTool { path };
                    SdkAction::CheckFile(probe)
                },
                SdkEvent::IsDir(false) => {
                    self.phase = SdkPhase::Vs;
                    SdkAction::VsSearch
                },
                _ => unreached(),
            },
            SdkPhase::LatestTool { path } => match event {
                SdkEvent::Exists(true) => {
                    self.phase = SdkPhase::Done;
                    SdkAction::Done(Some(path))
                },
                SdkEvent::Exists(false) => {
                    self.phase = SdkPhase::Vs;
                    SdkAction::VsSearch
                },
                _ => unreached(),
            },
            SdkPhase::Vs => match event {
                SdkEvent::VsRoot(Some(root)) => {
                    let ver = String::from_str(file_name_part(root.as_str()));
                    let base = String::from_str(parent_dir(parent_dir(root.as_str())));
                    let pick = arch_pick_str(self.arch, "x86", "x64", "arm64");
                    let head = concat4(base.as_str(), "/bin/", ver.as_str(), "/");
                    let dir = concat2(head.as_str(), pick);
                    let probe = dir.clone();
                    self.phase = SdkPhase::VsPrimaryDir { root, dir };
                    SdkAction::CheckDir(probe)
                },
                SdkEvent::VsRoot(None) => {
                    self.phase = SdkPhase::Done;
                    SdkAction::Done(None)
                },
                _ => unreached(),
            },
            SdkPhase::VsPrimaryDir { root, dir } => match event {
                SdkEvent::IsDir(true) => {
                    let path = self.tool_path(&dir);
                    let probe = path.clone();
                    self.phase = SdkPhase::VsPrimaryTool { root, path };
                    SdkAction::CheckFile(probe)
                },
                SdkEvent::IsDir(false) => self.vs_fallback_request(root),
                _ => unreached(),
            },
            SdkPhase::VsPrimaryTool { root, path } => match event {
                SdkEvent::Exists(true) => {
                    self.phase = SdkPhase::Done;
                    SdkAction::Done(Some(path))
                },
                SdkEvent::Exists(false) => self.vs_fallback_request(root),
                _ => unreached(),
            },
            SdkPhase::VsFallbackDir { dir } => match event {
                SdkEvent::IsDir(true) => {
                    let path = self.tool_path(&dir);
                    let probe = path.clone();
                    self.phase = SdkPhase::VsFallbackTool { path };
                    SdkAction::CheckFile(probe)
                },
                SdkEvent::IsDir(false) => {
                    self.phase = SdkPhase::Done;
                    SdkAction::Done(None)
                },
                _ => unreached(),
            },
            SdkPhase::VsFallbackTool { path } => match event {
                SdkEvent::Exists(true) => {
                    self.phase = SdkPhase::Done;
                    SdkAction::Done(Some(path))
                },
                SdkEvent::Exists(false) => {
                    self.phase = SdkPhase::Done;
                    SdkAction::Done(None)
                },
                _ => unreached(),
            },
            SdkPhase::Done => unreached(),
        }
    }

    /// The fallback candidate check beside a locator-reported root.
    fn vs_fallback_request(&mut self, root: String) -> (a: SdkAction)
        ensures
            vs_fallback(*old(self), *final(self), a, root),
            sdk_wf(*final(self)),
    {
        let base = String::from_str(parent_dir(parent_dir(root.as_str())));
        let pick = arch_pick_str(self.arch, "bin/x86", "bin/x64", "bin/arm64");
        let dir = concat3(base.as_str(), "/", pick);
        let probe = dir.clone();
        self.phase = SdkPhase::VsFallbackDir { dir };
        SdkAction::CheckDir(probe)
    }
}

/// The architecture-specific choice among three directory names.
fn arch_pick_str<'a>(arch: HostArch, a: &'a str, b: &'a str, c: &'a str) -> (r: &'a str)
    ensures
        r@ == arch_pick(arch, a@, b@, c@),
{
    match arch {
        HostArch::X86 => a,
        HostArch::X64 => b,
        HostArch::AArch64 => c,
    }
}


/// Find an MSVC build tool other than the compiler and linker, such as
/// `midl.exe`, in the Windows Kits and SDK directories.
///
/// The search needs the Windows registry and filesystem, which only a
/// Windows host has: a build script there drives [`SdkSearch`] and answers
/// its actions.  On every other host there is nothing to search, and the
/// lookup reports no tool.
pub fn find_windows_sdk_tool(tool: &str) -> (r: Option<String>)
    ensures
        r is None,
{
    find_windows_sdk_tool_impl(tool)
}

/// The hosts verified here have no Windows SDK: the lookup reports no tool.
pub fn find_windows_sdk_tool_impl(_tool: &str) -> (r: Option<String>)
    ensures
        r is None,
{
    None
}

} // verus!
