//! Rank-ordered candidate selection: given a list of candidates and, for
//! each, whether it was found on disk, the first hit in rank order wins.
//! Both the runtime resolver and the project-root resolver are instances
//! of this rule.

use vstd::prelude::*;

verus! {

/// Index of the first `true` entry of `flags` at or after position `i`,
/// or `flags.len()` if there is none.
pub open spec fn first_hit_from(flags: Seq<bool>, i: int) -> int
    decreases flags.len() - i,
{
    if i < 0 || i >= flags.len() {
        flags.len() as int
    } else if flags[i] {
        i
    } else {
        first_hit_from(flags, i + 1)
    }
}

/// Index of the first `true` entry of `flags`, or `flags.len()` if none is.
pub open spec fn first_hit(flags: Seq<bool>) -> int {
    first_hit_from(flags, 0)
}

/// Whether any entry of `flags` is `true`.
pub open spec fn has_hit(flags: Seq<bool>) -> bool {
    first_hit(flags) < flags.len()
}

/// `first_hit_from` lands on a `true` entry and skips only `false` ones.
pub proof fn lemma_first_hit_from(flags: Seq<bool>, i: int)
    requires
        0 <= i <= flags.len(),
    ensures
        i <= first_hit_from(flags, i) <= flags.len(),
        first_hit_from(flags, i) < flags.len() ==> flags[first_hit_from(flags, i)],
        forall|j: int| i <= j < first_hit_from(flags, i) ==> !flags[j],
    decreases flags.len() - i,
{
    if i < flags.len() && !flags[i] {
        lemma_first_hit_from(flags, i + 1);
    }
}

/// The first hit is uniquely characterized: if `flags[i]` holds and every
/// earlier entry is `false`, the first hit is exactly `i`.
pub proof fn lemma_first_hit_is(flags: Seq<bool>, i: int)
    requires
        0 <= i < flags.len(),
        flags[i],
        forall|j: int| 0 <= j < i ==> !flags[j],
    ensures
        first_hit(flags) == i,
{
    lemma_first_hit_from(flags, 0);
    let h = first_hit(flags);
    if h < i {
        assert(flags[h]);
        assert(!flags[h]);
    }
    if h > i {
        assert(!flags[i]);
    }
}

/// If no entry of `flags` is `true`, there is no hit.
pub proof fn lemma_no_hit(flags: Seq<bool>)
    requires
        forall|j: int| 0 <= j < flags.len() ==> !flags[j],
    ensures
        !has_hit(flags),
{
    lemma_first_hit_from(flags, 0);
    if has_hit(flags) {
        assert(flags[first_hit(flags)]);
    }
}

/// Position of the first candidate that was found, if any; the search is
/// strictly in rank order, so every candidate before the returned one was
/// absent.
pub fn first_true_index(flags: &Vec<bool>) -> (r: Option<usize>)
    ensures
        match r {
            Some(i) => {
                &&& i < flags@.len()
                &&& flags@[i as int]
                &&& forall|j: int| 0 <= j < i ==> !flags@[j]
                &&& first_hit(flags@) == i
            },
            None => {
                &&& forall|j: int| 0 <= j < flags@.len() ==> !flags@[j]
                &&& !has_hit(flags@)
            },
        },
{
    let mut i: usize = 0;
    while i < flags.len()
        invariant
            0 <= i <= flags@.len(),
            forall|j: int| 0 <= j < i ==> !flags@[j],
        decreases flags@.len() - i,
    {
        if flags[i] {
            proof {
                lemma_first_hit_is(flags@, i as int);
            }
            return Some(i);
        }
        i += 1;
    }
    proof {
        lemma_no_hit(flags@);
    }
    None
}

/// The views of a sequence of owned strings.
pub open spec fn views(ss: Seq<String>) -> Seq<Seq<char>> {
    ss.map_values(|s: String| s@)
}

/// The view of an optional owned string.
pub open spec fn opt_view(o: Option<String>) -> Option<Seq<char>> {
    match o {
        Some(s) => Some(s@),
        None => None,
    }
}

} // verus!
