//! The one-time include-path extension.
//!
//! `RC.EXE` invoked outside a full developer environment cannot find
//! `windows.h` and friends; the repair is to extend the process-wide
//! include-path variable with every versioned include directory found under
//! the kit root, appended — deduplicated — after the existing entries, plus
//! the include paths of the detected MSVC compiler environment.  The
//! extension must happen at most once per process however many resources are
//! compiled: [`MutationGuard`] models the single-initialization flag, and
//! [`extended_include_value`] computes the new value of the variable.

use vstd::prelude::*;

verus! {

use vstd::string::StringExecFns;
use crate::byteseq::seq_contains;
use crate::strutil::seq_ends_with;
use crate::strutil::str_contains;
use crate::strutil::str_ends_with;

/// The single-initialization flag for the include-path extension.
///
/// A process holds exactly one of these (behind an atomic or other
/// synchronization of the embedding build script); the extension runs only
/// when [`MutationGuard::claim`] returns true.
pub struct MutationGuard {
    /// Whether the extension has already been claimed.
    pub done: bool,
}

/// What one claim does: it reports whether the flag was still unclaimed, and
/// leaves it claimed either way.
pub open spec fn claim_spec(pre: MutationGuard, post: MutationGuard, r: bool) -> bool {
    r == !pre.done && post.done
}

impl MutationGuard {
    /// A fresh, unclaimed guard.
    pub fn new() -> (r: MutationGuard)
        ensures
            !r.done,
    {
        MutationGuard { done: false }
    }

    /// Claim the one-time extension: true exactly when nobody had claimed it
    /// before.
    pub fn claim(&mut self) -> (r: bool)
        ensures
            claim_spec(*old(self), *final(self), r),
    {
        let was = self.done;
        self.done = true;
        !was
    }
}

/// However many times the guard is claimed, at most the first claim grants
/// the extension: a claim after any other claim reports false.
pub proof fn lemma_extension_granted_at_most_once(
    g0: MutationGuard,
    g1: MutationGuard,
    g2: MutationGuard,
    r1: bool,
    r2: bool,
)
    requires
        claim_spec(g0, g1, r1),
        claim_spec(g1, g2, r2),
    ensures
        !r2,
        !(r1 && r2),
{
}

/// `s`, terminated by a `;` if it was not already (the empty value becomes a
/// single `;`).
pub open spec fn spec_semi_terminated(s: Seq<char>) -> Seq<char> {
    if seq_ends_with(s, ";"@) {
        s
    } else {
        s + ";"@
    }
}

/// One deduplicating append: `d` followed by `;` joins `acc` unless `d`
/// already occurs in it.
pub open spec fn spec_include_step(acc: Seq<char>, d: Seq<char>) -> Seq<char> {
    if seq_contains(acc, d) {
        acc
    } else {
        acc + d + ";"@
    }
}

/// The deduplicating appends of `dirs[i..]` onto `acc`, in order; each
/// directory is tested against the value grown so far.
pub open spec fn spec_extend_from(acc: Seq<char>, dirs: Seq<Seq<char>>, i: int) -> Seq<char>
    decreases dirs.len() - i,
{
    if i < 0 || i >= dirs.len() {
        acc
    } else {
        spec_extend_from(spec_include_step(acc, dirs[i]), dirs, i + 1)
    }
}

/// The extended include-path value: the existing value, `;`-terminated, then
/// every subdirectory not already present, each `;`-terminated, then the
/// detected compiler environment's own include paths, `;`-terminated.
pub open spec fn spec_extended_include(
    existing: Seq<char>,
    subdirs: Seq<Seq<char>>,
    cl_paths: Option<Seq<char>>,
) -> Seq<char> {
    let grown = spec_extend_from(spec_semi_terminated(existing), subdirs, 0);
    match cl_paths {
        Some(p) => grown + p + ";"@,
        None => grown,
    }
}

/// Compute the extended include-path value.
pub fn extended_include_value(
    existing: &str,
    subdirs: &Vec<String>,
    cl_paths: Option<&String>,
) -> (r: String)
    ensures
        r@ == spec_extended_include(
            existing@,
            subdirs.deep_view(),
            match cl_paths {
                Some(p) => Some(p@),
                None => None,
            },
        ),
{
    let mut acc = String::from_str(existing);
    if !str_ends_with(existing, ";") {
        acc.append(";");
    }
    proof {
        assert(acc@ == spec_semi_terminated(existing@));
    }
    let ghost base = acc@;
    let mut k: usize = 0;
    while k < subdirs.len()
        invariant
            k <= subdirs@.len(),
            spec_extend_from(acc@, subdirs.deep_view(), k as int) == spec_extend_from(
                base,
                subdirs.deep_view(),
                0,
            ),
        decreases subdirs@.len() - k,
    {
        let ghost acc0 = acc@;
        let d = &subdirs[k];
        if !str_contains(acc.as_str(), d.as_str()) {
            acc.append(d.as_str());
            acc.append(";");
        }
        proof {
            assert(acc@ == spec_include_step(acc0, subdirs.deep_view()[k as int]));
        }
        k += 1;
    }
    match cl_paths {
        Some(p) => {
            acc.append(p.as_str());
            acc.append(";");
        },
        None => (),
    }
    acc
}

} // verus!
