//! The toolchain locator: a state machine that finds a resource compiler.
//!
//! The search needs answers only the operating system can give — is a
//! variable set, does an executable spawn, what does it print.  The locator
//! therefore never touches the system itself: each [`Locator::step`] consumes
//! the answer to the previous request and returns the next [`ProbeAction`],
//! until the action is [`ProbeAction::Finished`].  The embedding build script
//! performs each request and feeds the answer back as a plain value.
//!
//! The priority order is: explicit override variables (`RC_<target>`, then
//! `RC_<target-with-underscores>`, then `RC`, classified by probing, since an
//! override may name an arbitrary binary); then, for MinGW targets, the
//! synthesized cross `windres`; then, for MSVC-ABI targets, `llvm-rc`,
//! falling back on Windows hosts to an `RC.EXE` found under the installed
//! SDK roots.  The first success wins; targets that are not Windows-like are
//! reported inapplicable.

use vstd::prelude::*;

verus! {

use vstd::pervasive::unreached;
use vstd::string::StringExecFns;
use crate::byteseq::seq_contains;
use crate::compiler::Compiler;
use crate::compiler::CompilerKind;
use crate::compiler::classify_probe_output;
use crate::compiler::no_preprocess_signature;
use crate::compiler::spec_classify;
use crate::strutil::concat2;
use crate::strutil::concat4;
use crate::strutil::dash_to_underscore;
use crate::target::TargetFamily;
use crate::target::is_windres_name_for;
use crate::target::mingw_windres_name;
use crate::target::rc_var_exact;
use crate::target::rc_var_underscored;
use crate::target::spec_target_family;
use crate::target::target_family;

/// What the locator asks the embedding build script to do next.
pub enum ProbeAction {
    /// Read the named environment variable.
    ReadEnvVar(String),
    /// Run the named executable with the two-flag probe (the GNU version
    /// flag and the help flag together) and capture its standard output.
    RunClassifierProbe(String),
    /// Spawn the named executable and terminate it at once, reporting
    /// whether the spawn succeeded.
    CheckRunnable(String),
    /// Run the named executable with the help flag alone and capture its
    /// standard output, if it can be run.
    RunHelpProbe(String),
    /// Search the installed Windows SDK roots for the named tool.
    FindSdkTool(String),
    /// The search is over; this is its outcome.
    Finished(ProbeOutcome),
}

/// The answer to a [`ProbeAction`], fed back into [`Locator::step`].
pub enum ProbeEvent {
    /// The variable's value, or `None` when it is not set.
    EnvVar(Option<String>),
    /// The classifier probe's standard output, or the text of the operating
    /// system's error when the executable could not be spawned.
    ClassifierOutput(Result<Vec<u8>, String>),
    /// Whether the executable could be spawned.
    Runnable(bool),
    /// The help probe's standard output, or `None` when the probe failed.
    HelpOutput(Option<Vec<u8>>),
    /// The path the SDK search found, if any.
    SdkTool(Option<String>),
}

/// How the search ended.
pub enum ProbeOutcome {
    /// A resource compiler was found and classified.
    Found(Compiler),
    /// The target is not Windows-like; resource compilation is inapplicable.
    NotWindows,
    /// The target is Windows-like but the named tool is missing (or, for a
    /// missing target identifier, the reason nothing was looked for).
    NotAttempted(String),
    /// An override executable printed unrecognized output or could not be
    /// launched at all.
    ClassificationFailed(String),
}

/// Where the locator stands in its priority order.
pub enum LocatorPhase {
    /// Awaiting the value of `RC_<target>`.
    EnvExact,
    /// Awaiting the value of `RC_<target-with-underscores>`.
    EnvUnderscored,
    /// Awaiting the value of `RC`.
    EnvPlain,
    /// Awaiting the classifier probe's output for an override executable.
    ClassifyOverride { exe: String },
    /// Awaiting the liveness of the synthesized cross `windres`.
    WindresCheck { exe: String },
    /// Awaiting the liveness of `llvm-rc`.
    LlvmCheck,
    /// Awaiting the help output of `llvm-rc`.
    LlvmHelp,
    /// Awaiting the result of the SDK search for `RC.EXE`.
    SdkSearch,
    /// The search is over.
    Finished,
}

/// The toolchain locator's state between steps.
pub struct Locator {
    /// The target identifier the search is for.
    pub target: String,
    /// Whether the machine running the build is itself Windows; only such a
    /// host can fall back to searching the SDK roots for `RC.EXE`.
    pub host_is_windows: bool,
    /// Where the search stands.
    pub phase: LocatorPhase,
}

/// The post-state keeps the search's context.
pub open spec fn keeps_context(pre: Locator, post: Locator) -> bool {
    post.target == pre.target && post.host_is_windows == pre.host_is_windows
}

/// An override value was found: its executable is sent to the classifier.
pub open spec fn override_classify_requested(
    pre: Locator,
    v: String,
    post: Locator,
    a: ProbeAction,
) -> bool {
    &&& keeps_context(pre, post)
    &&& post.phase matches LocatorPhase::ClassifyOverride { exe } && exe == v
    &&& a matches ProbeAction::RunClassifierProbe(n) && n == v
}

/// The search is over with outcome `o` and no further action.
pub open spec fn finishes(post: Locator, a: ProbeAction, o: ProbeOutcome) -> bool {
    post.phase is Finished && a == ProbeAction::Finished(o)
}

/// What starting the locator produces: with a target, the request for the
/// exactly-scoped override variable; without one, a not-attempted answer.
pub open spec fn start_spec(
    target: Option<String>,
    host_is_windows: bool,
    l: Locator,
    a: ProbeAction,
) -> bool {
    match target {
        Some(t) => {
            &&& l.target == t
            &&& l.host_is_windows == host_is_windows
            &&& l.phase is EnvExact
            &&& a matches ProbeAction::ReadEnvVar(n) && n@ == "RC_"@ + t@
        },
        None => {
            &&& l.phase is Finished
            &&& a matches ProbeAction::Finished(o)
            &&& o matches ProbeOutcome::NotAttempted(m) && m@ == "no $TARGET"@
        },
    }
}

/// The locator's transition relation: what one step turns the state into and
/// which action it requests, for every phase and the event answering it.
pub open spec fn transition(pre: Locator, e: ProbeEvent, post: Locator, a: ProbeAction) -> bool {
    match pre.phase {
        LocatorPhase::EnvExact => match e {
            ProbeEvent::EnvVar(Some(v)) => override_classify_requested(pre, v, post, a),
            ProbeEvent::EnvVar(None) => {
                &&& keeps_context(pre, post)
                &&& post.phase is EnvUnderscored
                &&& a matches ProbeAction::ReadEnvVar(n) && n@ == "RC_"@ + pre.target@.map_values(
                    |c: char| dash_to_underscore(c),
                )
            },
            _ => false,
        },
        LocatorPhase::EnvUnderscored => match e {
            ProbeEvent::EnvVar(Some(v)) => override_classify_requested(pre, v, post, a),
            ProbeEvent::EnvVar(None) => {
                &&& keeps_context(pre, post)
                &&& post.phase is EnvPlain
                &&& a matches ProbeAction::ReadEnvVar(n) && n@ == "RC"@
            },
            _ => false,
        },
        LocatorPhase::EnvPlain => match e {
            ProbeEvent::EnvVar(Some(v)) => override_classify_requested(pre, v, post, a),
            ProbeEvent::EnvVar(None) => match spec_target_family(pre.target@) {
                TargetFamily::MinGw => {
                    &&& keeps_context(pre, post)
                    &&& post.phase matches LocatorPhase::WindresCheck { exe }
                        && is_windres_name_for(pre.target@, exe@) && (a
                        matches ProbeAction::CheckRunnable(n) && n == exe)
                },
                TargetFamily::Msvc => {
                    &&& keeps_context(pre, post)
                    &&& post.phase is LlvmCheck
                    &&& a matches ProbeAction::CheckRunnable(n) && n@ == "llvm-rc"@
                },
                TargetFamily::NotWindows => finishes(post, a, ProbeOutcome::NotWindows),
            },
            _ => false,
        },
        LocatorPhase::ClassifyOverride { exe } => match e {
            ProbeEvent::ClassifierOutput(Ok(out)) => match spec_classify(out@) {
                Some(kind) => {
                    &&& post.phase is Finished
                    &&& a matches ProbeAction::Finished(o)
                    &&& o matches ProbeOutcome::Found(c)
                    &&& c.kind == kind
                    &&& c.executable == exe
                },
                None => {
                    &&& post.phase is Finished
                    &&& a matches ProbeAction::Finished(o)
                    &&& o matches ProbeOutcome::ClassificationFailed(m)
                    &&& m@ == "Unknown RC compiler variant: "@ + exe@
                },
            },
            ProbeEvent::ClassifierOutput(Err(err)) => {
                &&& post.phase is Finished
                &&& a matches ProbeAction::Finished(o)
                &&& o matches ProbeOutcome::ClassificationFailed(m)
                &&& m@ == "Couldn't execute "@ + exe@ + ": "@ + err@
            },
            _ => false,
        },
        LocatorPhase::WindresCheck { exe } => match e {
            ProbeEvent::Runnable(true) => {
                &&& post.phase is Finished
                &&& a matches ProbeAction::Finished(o)
                &&& o matches ProbeOutcome::Found(c)
                &&& c.kind == CompilerKind::WindRes
                &&& c.executable == exe
            },
            ProbeEvent::Runnable(false) => {
                &&& post.phase is Finished
                &&& a matches ProbeAction::Finished(o)
                &&& o matches ProbeOutcome::NotAttempted(m) && m == exe
            },
            _ => false,
        },
        LocatorPhase::LlvmCheck => match e {
            ProbeEvent::Runnable(true) => {
                &&& keeps_context(pre, post)
                &&& post.phase is LlvmHelp
                &&& a matches ProbeAction::RunHelpProbe(n) && n@ == "llvm-rc"@
            },
            ProbeEvent::Runnable(false) => {
                if pre.host_is_windows {
                    &&& keeps_context(pre, post)
                    &&& post.phase is SdkSearch
                    &&& a matches ProbeAction::FindSdkTool(n) && n@ == "rc.exe"@
                } else {
                    &&& post.phase is Finished
                    &&& a matches ProbeAction::Finished(o)
                    &&& o matches ProbeOutcome::NotAttempted(m) && m@ == "llvm-rc"@
                }
            },
            _ => false,
        },
        LocatorPhase::LlvmHelp => match e {
            ProbeEvent::HelpOutput(out) => {
                &&& post.phase is Finished
                &&& a matches ProbeAction::Finished(o)
                &&& o matches ProbeOutcome::Found(c)
                &&& c.kind == CompilerKind::LlvmRc {
                    has_no_preprocess: match out {
                        Some(text) => seq_contains(text@, no_preprocess_signature()),
                        None => false,
                    },
                }
                &&& c.executable@ == "llvm-rc"@
            },
            _ => false,
        },
        LocatorPhase::SdkSearch => match e {
            ProbeEvent::SdkTool(found) => {
                &&& post.phase is Finished
                &&& a matches ProbeAction::Finished(o)
                &&& o matches ProbeOutcome::Found(c)
                &&& c.kind == CompilerKind::MsvcRc
                &&& match found {
                    Some(path) => c.executable == path,
                    None => c.executable@ == "rc.exe"@,
                }
            },
            _ => false,
        },
        LocatorPhase::Finished => false,
    }
}

/// The event kinds each phase awaits; feeding any other is a caller error.
pub open spec fn event_expected(l: Locator, e: ProbeEvent) -> bool {
    match l.phase {
        LocatorPhase::EnvExact | LocatorPhase::EnvUnderscored | LocatorPhase::EnvPlain => e
            is EnvVar,
        LocatorPhase::ClassifyOverride { .. } => e is ClassifierOutput,
        LocatorPhase::WindresCheck { .. } => e is Runnable,
        LocatorPhase::LlvmCheck => e is Runnable,
        LocatorPhase::LlvmHelp => e is HelpOutput,
        LocatorPhase::SdkSearch => e is SdkTool,
        LocatorPhase::Finished => false,
    }
}

impl Locator {
    /// Begin the search for the given target identifier.
    ///
    /// Without a target identifier the search ends at once, not attempted:
    /// that is expected on unsupported configurations, not exceptional.
    pub fn start(target: Option<String>, host_is_windows: bool) -> (r: (Locator, ProbeAction))
        ensures
            start_spec(target, host_is_windows, r.0, r.1),
    {
        match target {
            Some(t) => {
                let var = rc_var_exact(t.as_str());
                (
                    Locator { target: t, host_is_windows, phase: LocatorPhase::EnvExact },
                    ProbeAction::ReadEnvVar(var),
                )
            },
            None => (
                Locator {
                    target: String::new(),
                    host_is_windows,
                    phase: LocatorPhase::Finished,
                },
                ProbeAction::Finished(
                    ProbeOutcome::NotAttempted(String::from_str("no $TARGET")),
                ),
            ),
        }
    }

    /// Consume the answer to the previous action and return the next one.
    pub fn step(&mut self, event: ProbeEvent) -> (a: ProbeAction)
        requires
            event_expected(*old(self), event),
        ensures
            transition(*old(self), event, *final(self), a),
    {
        let mut phase = LocatorPhase::Finished;
        core::mem::swap(&mut phase, &mut self.phase);
        match phase {
            LocatorPhase::EnvExact => match event {
                ProbeEvent::EnvVar(Some(v)) => self.request_override_classification(v),
                ProbeEvent::EnvVar(None) => {
                    let var = rc_var_underscored(self.target.as_str());
                    self.phase = LocatorPhase::EnvUnderscored;
                    ProbeAction::ReadEnvVar(var)
                },
                _ => unreached(),
            },
            LocatorPhase::EnvUnderscored => match event {
                ProbeEvent::EnvVar(Some(v)) => self.request_override_classification(v),
                ProbeEvent::EnvVar(None) => {
                    self.phase = LocatorPhase::EnvPlain;
                    ProbeAction::ReadEnvVar(String::from_str("RC"))
                },
                _ => unreached(),
            },
            LocatorPhase::EnvPlain => match event {
                ProbeEvent::EnvVar(Some(v)) => self.request_override_classification(v),
                ProbeEvent::EnvVar(None) => match target_family(self.target.as_str()) {
                    TargetFamily::MinGw => {
                        let name = mingw_windres_name(self.target.as_str());
                        let probe = name.clone();
                        self.phase = LocatorPhase::WindresCheck { exe: name };
                        ProbeAction::CheckRunnable(probe)
                    },
                    TargetFamily::Msvc => {
                        self.phase = LocatorPhase::LlvmCheck;
                        ProbeAction::CheckRunnable(String::from_str("llvm-rc"))
                    },
                    TargetFamily::NotWindows => {
                        ProbeAction::Finished(ProbeOutcome::NotWindows)
                    },
                },
                _ => unreached(),
            },
            LocatorPhase::ClassifyOverride { exe } => match event {
                ProbeEvent::ClassifierOutput(Ok(out)) => match classify_probe_output(&out) {
                    Some(kind) => ProbeAction::Finished(
                        ProbeOutcome::Found(Compiler { kind, executable: exe }),
                    ),
                    None => ProbeAction::Finished(
                        ProbeOutcome::ClassificationFailed(
                            concat2("Unknown RC compiler variant: ", exe.as_str()),
                        ),
                    ),
                },
                ProbeEvent::ClassifierOutput(Err(err)) => ProbeAction::Finished(
                    ProbeOutcome::ClassificationFailed(
                        concat4("Couldn't execute ", exe.as_str(), ": ", err.as_str()),
                    ),
                ),
                _ => unreached(),
            },
            LocatorPhase::WindresCheck { exe } => match event {
                ProbeEvent::Runnable(true) => ProbeAction::Finished(
                    ProbeOutcome::Found(
                        Compiler { kind: CompilerKind::WindRes, executable: exe },
                    ),
                ),
                ProbeEvent::Runnable(false) => ProbeAction::Finished(
                    ProbeOutcome::NotAttempted(exe),
                ),
                _ => unreached(),
            },
            LocatorPhase::LlvmCheck => match event {
                ProbeEvent::Runnable(true) => {
                    self.phase = LocatorPhase::LlvmHelp;
                    ProbeAction::RunHelpProbe(String::from_str("llvm-rc"))
                },
                ProbeEvent::Runnable(false) => {
                    if self.host_is_windows {
                        self.phase = LocatorPhase::SdkSearch;
                        ProbeAction::FindSdkTool(String::from_str("rc.exe"))
                    } else {
                        ProbeAction::Finished(
                            ProbeOutcome::NotAttempted(String::from_str("llvm-rc")),
                        )
                    }
                },
                _ => unreached(),
            },
            LocatorPhase::LlvmHelp => match event {
                ProbeEvent::HelpOutput(out) => {
                    let has_no_preprocess = match out {
                        Some(text) => {
                            let nopre = crate::compiler::no_preprocess_signature_bytes();
                            crate::byteseq::bytes_contain(&text, &nopre)
                        },
                        None => false,
                    };
                    ProbeAction::Finished(
                        ProbeOutcome::Found(
                            Compiler {
                                kind: CompilerKind::LlvmRc { has_no_preprocess },
                                executable: String::from_str("llvm-rc"),
                            },
                        ),
                    )
                },
                _ => unreached(),
            },
            LocatorPhase::SdkSearch => match event {
                ProbeEvent::SdkTool(found) => {
                    let executable = match found {
                        Some(path) => path,
                        None => String::from_str("rc.exe"),
                    };
                    ProbeAction::Finished(
                        ProbeOutcome::Found(
                            Compiler { kind: CompilerKind::MsvcRc, executable },
                        ),
                    )
                },
                _ => unreached(),
            },
            LocatorPhase::Finished => unreached(),
        }
    }

    /// An override value was found: remember it and ask for its classifier
    /// probe.
    fn request_override_classification(&mut self, v: String) -> (a: ProbeAction)
        ensures
            override_classify_requested(*old(self), v, *final(self), a),
    {
        let probe = v.clone();
        self.phase = LocatorPhase::ClassifyOverride { exe: v };
        ProbeAction::RunClassifierProbe(probe)
    }
}


/// For a target that matches no Windows-like pattern, when no override
/// variable is set, the locator answers with three environment reads and
/// then the inapplicable answer: it never asks for an executable to be
/// spawned or probed, a file to be checked, or the registry to be searched.
pub proof fn lemma_inapplicable_target_probes_nothing(
    t: String,
    host_is_windows: bool,
    l0: Locator,
    a0: ProbeAction,
    l1: Locator,
    a1: ProbeAction,
    l2: Locator,
    a2: ProbeAction,
    l3: Locator,
    a3: ProbeAction,
)
    requires
        spec_target_family(t@) == TargetFamily::NotWindows,
        start_spec(Some(t), host_is_windows, l0, a0),
        transition(l0, ProbeEvent::EnvVar(None), l1, a1),
        transition(l1, ProbeEvent::EnvVar(None), l2, a2),
        transition(l2, ProbeEvent::EnvVar(None), l3, a3),
    ensures
        a0 is ReadEnvVar,
        a1 is ReadEnvVar,
        a2 is ReadEnvVar,
        a3 == ProbeAction::Finished(ProbeOutcome::NotWindows),
        l3.phase is Finished,
{
}

/// For a MinGW target with no override variable set, when the synthesized
/// cross `windres` cannot be spawned, the locator reports "not attempted"
/// naming exactly that synthesized executable.
pub proof fn lemma_missing_windres_is_named(
    t: String,
    host_is_windows: bool,
    l0: Locator,
    a0: ProbeAction,
    l1: Locator,
    a1: ProbeAction,
    l2: Locator,
    a2: ProbeAction,
    l3: Locator,
    a3: ProbeAction,
    l4: Locator,
    a4: ProbeAction,
)
    requires
        spec_target_family(t@) == TargetFamily::MinGw,
        start_spec(Some(t), host_is_windows, l0, a0),
        transition(l0, ProbeEvent::EnvVar(None), l1, a1),
        transition(l1, ProbeEvent::EnvVar(None), l2, a2),
        transition(l2, ProbeEvent::EnvVar(None), l3, a3),
        transition(l3, ProbeEvent::Runnable(false), l4, a4),
    ensures
        a3 matches ProbeAction::CheckRunnable(n) && is_windres_name_for(t@, n@),
        a4 matches ProbeAction::Finished(o) && o matches ProbeOutcome::NotAttempted(m)
            && is_windres_name_for(t@, m@),
        l4.phase is Finished,
{
}

/// For an MSVC-ABI target with no override variable set, when `llvm-rc`
/// cannot be spawned and the host is not Windows, the locator reports "not
/// attempted" naming `llvm-rc`.
pub proof fn lemma_missing_llvm_rc_is_named(
    t: String,
    l0: Locator,
    a0: ProbeAction,
    l1: Locator,
    a1: ProbeAction,
    l2: Locator,
    a2: ProbeAction,
    l3: Locator,
    a3: ProbeAction,
    l4: Locator,
    a4: ProbeAction,
)
    requires
        spec_target_family(t@) == TargetFamily::Msvc,
        start_spec(Some(t), false, l0, a0),
        transition(l0, ProbeEvent::EnvVar(None), l1, a1),
        transition(l1, ProbeEvent::EnvVar(None), l2, a2),
        transition(l2, ProbeEvent::EnvVar(None), l3, a3),
        transition(l3, ProbeEvent::Runnable(false), l4, a4),
    ensures
        a4 matches ProbeAction::Finished(o) && o matches ProbeOutcome::NotAttempted(m) && m@
            == "llvm-rc"@,
        l4.phase is Finished,
{
}

/// Whatever the target, an override executable that cannot be launched at
/// all ends the search as a classification failure naming it — never
/// downgraded to "not attempted".
pub proof fn lemma_override_spawn_failure_is_classification_failure(
    l0: Locator,
    v: String,
    l1: Locator,
    a1: ProbeAction,
    err: String,
    l2: Locator,
    a2: ProbeAction,
)
    requires
        l0.phase is EnvExact || l0.phase is EnvUnderscored || l0.phase is EnvPlain,
        transition(l0, ProbeEvent::EnvVar(Some(v)), l1, a1),
        transition(l1, ProbeEvent::ClassifierOutput(Err(err)), l2, a2),
    ensures
        a2 matches ProbeAction::Finished(o) && o matches ProbeOutcome::ClassificationFailed(m)
            && m@ == "Couldn't execute "@ + v@ + ": "@ + err@,
        l2.phase is Finished,
{
}

/// Whatever the target, an override executable whose probe output identifies
/// no known resource compiler ends the search as a classification failure
/// naming it.
pub proof fn lemma_override_unknown_output_is_classification_failure(
    l0: Locator,
    v: String,
    l1: Locator,
    a1: ProbeAction,
    out: Vec<u8>,
    l2: Locator,
    a2: ProbeAction,
)
    requires
        l0.phase is EnvExact || l0.phase is EnvUnderscored || l0.phase is EnvPlain,
        transition(l0, ProbeEvent::EnvVar(Some(v)), l1, a1),
        transition(l1, ProbeEvent::ClassifierOutput(Ok(out)), l2, a2),
        spec_classify(out@) is None,
    ensures
        a2 matches ProbeAction::Finished(o) && o matches ProbeOutcome::ClassificationFailed(m)
            && m@ == "Unknown RC compiler variant: "@ + v@,
        l2.phase is Finished,
{
}

} // verus!
