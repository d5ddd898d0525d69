//! Runtime resolver: builds the fixed, rank-ordered list of candidate
//! interpreter locations and picks the first one that exists on disk.
//! When none exists it yields the bare interpreter command and defers to
//! the operating system's executable search path at spawn time — a soft
//! failure by design: spawning is still attempted.

use vstd::prelude::*;
use crate::paths::{join, join_spec, OsFamily};
use crate::select::{first_hit, first_true_index, has_hit, opt_view, views};

verus! {

/// The bare command used when no candidate interpreter exists.
pub open spec fn fallback_command_spec() -> Seq<char> {
    "python"@
}

/// The bare interpreter command of last resort.
pub fn fallback_command() -> (r: &'static str)
    ensures
        r@ == fallback_command_spec(),
{
    "python"
}

/// The rank-ordered interpreter candidates: the two environment-directory
/// variants, dot-named first, under the project root, then beside the
/// executable, then (when the executable's directory has a parent) one
/// level above it — one ordered variant table, applied at every level.
pub open spec fn runtime_candidate_seq(
    project_dir: Seq<char>,
    exe_dir: Seq<char>,
    exe_parent: Option<Seq<char>>,
    os: OsFamily,
) -> Seq<Seq<char>> {
    let base = seq![
        join_spec(project_dir, os.venv_dot_spec(), os),
        join_spec(project_dir, os.venv_plain_spec(), os),
        join_spec(exe_dir, os.venv_dot_spec(), os),
        join_spec(exe_dir, os.venv_plain_spec(), os),
    ];
    match exe_parent {
        Some(p) => base + seq![
            join_spec(p, os.venv_dot_spec(), os),
            join_spec(p, os.venv_plain_spec(), os),
        ],
        None => base,
    }
}

/// Build the interpreter candidate list in rank order.
pub fn runtime_candidates(
    project_dir: &str,
    exe_dir: &str,
    exe_parent: &Option<String>,
    os: OsFamily,
) -> (r: Vec<String>)
    ensures
        views(r@) == runtime_candidate_seq(project_dir@, exe_dir@, opt_view(*exe_parent), os),
{
    let mut r: Vec<String> = Vec::new();
    r.push(join(project_dir, os.venv_dot(), os));
    r.push(join(project_dir, os.venv_plain(), os));
    r.push(join(exe_dir, os.venv_dot(), os));
    r.push(join(exe_dir, os.venv_plain(), os));
    match exe_parent {
        Some(p) => {
            r.push(join(p.as_str(), os.venv_dot(), os));
            r.push(join(p.as_str(), os.venv_plain(), os));
            proof {
                assert(views(r@) =~= runtime_candidate_seq(
                    project_dir@, exe_dir@, opt_view(*exe_parent), os,
                ));
            }
        },
        None => {
            proof {
                assert(views(r@) =~= runtime_candidate_seq(
                    project_dir@, exe_dir@, opt_view(*exe_parent), os,
                ));
            }
        },
    }
    r
}

/// What the resolver yields: the first candidate marked as existing, in
/// rank order, or the fallback command when none is.
pub open spec fn resolve_runtime_spec(candidates: Seq<Seq<char>>, found: Seq<bool>) -> Seq<char> {
    if has_hit(found) {
        candidates[first_hit(found)]
    } else {
        fallback_command_spec()
    }
}

/// Pick the interpreter: the first candidate that exists in rank order,
/// never a later one; the bare fallback command when none exists.
/// `found[i]` reports whether `candidates[i]` exists on disk.
pub fn resolve_runtime(candidates: &Vec<String>, found: &Vec<bool>) -> (r: String)
    requires
        candidates@.len() == found@.len(),
    ensures
        r@ == resolve_runtime_spec(views(candidates@), found@),
{
    match first_true_index(found) {
        Some(i) => candidates[i].clone(),
        None => fallback_command().to_string(),
    }
}

/// Law: the first existing candidate wins in rank order, never a later
/// one, even when several exist: whenever any candidate `i` exists, the
/// resolver yields the candidate at the first hit, which is at or before
/// `i`, and itself exists.
pub proof fn lemma_first_existing_wins(candidates: Seq<Seq<char>>, found: Seq<bool>, i: int)
    requires
        candidates.len() == found.len(),
        0 <= i < found.len(),
        found[i],
    ensures
        has_hit(found),
        first_hit(found) <= i,
        found[first_hit(found)],
        resolve_runtime_spec(candidates, found) == candidates[first_hit(found)],
{
    crate::select::lemma_first_hit_from(found, 0);
    if first_hit(found) > i {
        assert(!found[i]);
    }
}

/// Law: a resolved runtime handle is never empty. Every disk candidate
/// holds at least a separator, and the fallback is a non-empty literal.
pub proof fn lemma_runtime_handle_nonempty(
    project_dir: Seq<char>,
    exe_dir: Seq<char>,
    exe_parent: Option<Seq<char>>,
    os: OsFamily,
    found: Seq<bool>,
)
    requires
        found.len() == runtime_candidate_seq(project_dir, exe_dir, exe_parent, os).len(),
    ensures
        resolve_runtime_spec(runtime_candidate_seq(project_dir, exe_dir, exe_parent, os), found).len() > 0,
{
    os.lemma_sep_nonempty();
    if has_hit(found) {
        crate::select::lemma_first_hit_from(found, 0);
    } else {
        reveal_strlit("python");
    }
}

} // verus!
