//! Project-root resolver: tries an ordered list of strategies — the
//! build-time hint, the packaged-resource directory, then every ancestor of
//! the executable's directory — each validated by what is found under the
//! candidate: the backend entry module, or, as a secondary signal on the
//! walked ancestors, a project-marker file beside a backend directory
//! (`candidate_validates`). The first strategy that
//! validates wins and later ones are never consulted; when all are
//! exhausted the caller falls back to a directory derived from the
//! executable's location.

use vstd::prelude::*;
use crate::select::{first_hit, first_true_index, has_hit, opt_view, views};

verus! {

/// Every root-resolution strategy was exhausted without validating.
#[derive(Clone, Copy, PartialEq, Eq, Structural, Debug)]
pub struct RootNotFound;

/// The rank-ordered root candidates: the build-time hint (when the hinted
/// directory has a parent), the packaged-resource directory (when the host
/// provides one), then the ancestors of the executable's directory from
/// nearest to the filesystem root.
pub open spec fn root_candidate_seq(
    hint: Option<Seq<char>>,
    resource_dir: Option<Seq<char>>,
    ancestors: Seq<Seq<char>>,
) -> Seq<Seq<char>> {
    let h = match hint {
        Some(p) => seq![p],
        None => Seq::<Seq<char>>::empty(),
    };
    let r = match resource_dir {
        Some(p) => seq![p],
        None => Seq::<Seq<char>>::empty(),
    };
    h + r + ancestors
}

/// Build the root candidate list in strategy order.
pub fn root_candidates(
    hint: &Option<String>,
    resource_dir: &Option<String>,
    ancestors: &Vec<String>,
) -> (r: Vec<String>)
    ensures
        views(r@) == root_candidate_seq(opt_view(*hint), opt_view(*resource_dir), views(ancestors@)),
{
    let mut r: Vec<String> = Vec::new();
    match hint {
        Some(p) => r.push(p.clone()),
        None => (),
    }
    match resource_dir {
        Some(p) => r.push(p.clone()),
        None => (),
    }
    let ghost full = root_candidate_seq(opt_view(*hint), opt_view(*resource_dir), views(ancestors@));
    let base: usize = r.len();
    proof {
        assert(r@.len() + ancestors@.len() == full.len());
        assert(forall|j: int| 0 <= j < r@.len() ==> r@[j]@ == full[j]);
    }
    let mut i: usize = 0;
    while i < ancestors.len()
        invariant
            0 <= i <= ancestors@.len(),
            r@.len() == base + i,
            base + ancestors@.len() == full.len(),
            full == root_candidate_seq(opt_view(*hint), opt_view(*resource_dir), views(ancestors@)),
            forall|j: int| 0 <= j < r@.len() ==> r@[j]@ == full[j],
        decreases ancestors@.len() - i,
    {
        r.push(ancestors[i].clone());
        i += 1;
    }
    proof {
        assert(views(r@) =~= full);
    }
    r
}

/// Whether one candidate directory validates as the project root, from
/// what was found on disk under it: the backend entry module itself, or —
/// the secondary signal — a project-marker file co-located with a backend
/// directory.
pub open spec fn candidate_validates_spec(
    entry_module: bool,
    marker_file: bool,
    backend_dir: bool,
) -> bool {
    entry_module || (marker_file && backend_dir)
}

/// Decide a candidate's validity from the three per-candidate existence
/// checks: `entry_module` for the backend entry module under it,
/// `marker_file` for a sibling project-marker file, `backend_dir` for the
/// backend directory itself. The entry module alone suffices; the marker
/// counts only beside a backend directory.
pub fn candidate_validates(entry_module: bool, marker_file: bool, backend_dir: bool) -> (r: bool)
    ensures
        r == candidate_validates_spec(entry_module, marker_file, backend_dir),
{
    entry_module || (marker_file && backend_dir)
}

/// What resolution yields: the first validating candidate in strategy
/// order, or no root at all when none validates.
pub open spec fn resolve_root_spec(
    candidates: Seq<Seq<char>>,
    validates: Seq<bool>,
) -> Result<Seq<char>, RootNotFound> {
    if has_hit(validates) {
        Ok(candidates[first_hit(validates)])
    } else {
        Err(RootNotFound)
    }
}

/// Resolve the project root: the first candidate whose validation passed,
/// in strategy order; `RootNotFound` exactly when every strategy was
/// exhausted. `validates[i]` reports whether `candidates[i]` validated
/// (see `candidate_validates`).
pub fn resolve_root(candidates: &Vec<String>, validates: &Vec<bool>) -> (r: Result<
    String,
    RootNotFound,
>)
    requires
        candidates@.len() == validates@.len(),
    ensures
        match r {
            Ok(root) => has_hit(validates@) && root@ == views(candidates@)[first_hit(validates@)],
            Err(_) => !has_hit(validates@),
        },
{
    match first_true_index(validates) {
        Some(i) => Ok(candidates[i].clone()),
        None => Err(RootNotFound),
    }
}

/// Resolve the project root, falling back to the given directory (derived
/// from the executable's location) when every strategy is exhausted.
pub fn resolve_root_or_fallback(
    candidates: &Vec<String>,
    validates: &Vec<bool>,
    fallback: &str,
) -> (r: String)
    requires
        candidates@.len() == validates@.len(),
    ensures
        has_hit(validates@) ==> r@ == views(candidates@)[first_hit(validates@)],
        !has_hit(validates@) ==> r@ == fallback@,
{
    match resolve_root(candidates, validates) {
        Ok(root) => root,
        Err(_) => fallback.to_string(),
    }
}

/// Law: once strategy `k` validates, no later strategy is ever consulted —
/// the outcome is the same whatever any entry after `k` would have said.
pub proof fn lemma_later_strategies_never_consulted(
    candidates: Seq<Seq<char>>,
    validates1: Seq<bool>,
    validates2: Seq<bool>,
    k: int,
)
    requires
        candidates.len() == validates1.len(),
        candidates.len() == validates2.len(),
        0 <= k < validates1.len(),
        validates1[k],
        forall|j: int| 0 <= j <= k ==> validates1[j] == validates2[j],
    ensures
        resolve_root_spec(candidates, validates1) == resolve_root_spec(candidates, validates2),
{
    crate::select::lemma_first_hit_from(validates1, 0);
    let h1 = first_hit(validates1);
    assert(h1 <= k);
    assert(validates2[h1]);
    assert(forall|j: int| 0 <= j < h1 ==> !validates2[j]);
    crate::select::lemma_first_hit_is(validates2, h1);
}

} // verus!
