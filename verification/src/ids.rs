//! Stable string identities: lookup, uniqueness, and restriction of id lists.

use vstd::prelude::*;

verus! {

broadcast use vstd::seq_lib::group_seq_properties;

/// The character sequences of a list of strings.
pub open spec fn views(v: Seq<String>) -> Seq<Seq<char>> {
    v.map_values(|s: String| s@)
}

/// An optional string as characters.
pub open spec fn opt_view(o: Option<String>) -> Option<Seq<char>> {
    match o {
        Some(s) => Some(s@),
        None => None,
    }
}

/// Membership in a fixed list of identities, as a predicate.
pub open spec fn member_of(keep: Seq<Seq<char>>) -> spec_fn(Seq<char>) -> bool {
    |x: Seq<char>| keep.contains(x)
}

/// Pushing a string pushes its characters onto the views.
pub proof fn lemma_views_push(v: Seq<String>, s: String)
    ensures
        views(v.push(s)) == views(v).push(s@),
{
    assert(views(v.push(s)) =~= views(v).push(s@));
}

/// Keeping only some entries of a list without repeats leaves a list without repeats.
pub proof fn lemma_filter_no_duplicates(s: Seq<Seq<char>>, p: spec_fn(Seq<char>) -> bool)
    requires
        s.no_duplicates(),
    ensures
        s.filter(p).no_duplicates(),
    decreases s.len(),
{
    reveal(Seq::filter);
    if s.len() > 0 {
        let rest = s.drop_last();
        assert(rest.no_duplicates()) by {
            assert forall|i: int, j: int|
                0 <= i < rest.len() && 0 <= j < rest.len() && i != j implies rest[i] != rest[j] by {
                assert(rest[i] == s[i] && rest[j] == s[j]);
            }
        }
        lemma_filter_no_duplicates(rest, p);
        if p(s.last()) {
            if rest.filter(p).contains(s.last()) {
                rest.lemma_filter_contains_rev(p, s.last());
                let k = choose|k: int| 0 <= k < rest.len() && rest[k] == s.last();
                assert(s[k] == s[s.len() - 1]);
            }
            let f = rest.filter(p);
            assert forall|i: int, j: int|
                0 <= i < f.push(s.last()).len() && 0 <= j < f.push(s.last()).len() && i != j
                implies f.push(s.last())[i] != f.push(s.last())[j] by {
                if i < f.len() && j < f.len() {
                } else if i == f.len() {
                    assert(f[j] != s.last());
                } else {
                    assert(f[i] != s.last());
                }
            }
        }
    }
}

/// Whatever a filter keeps was in the list it filtered.
pub proof fn lemma_filter_subset(s: Seq<Seq<char>>, p: spec_fn(Seq<char>) -> bool, x: Seq<char>)
    requires
        s.filter(p).contains(x),
    ensures
        s.contains(x),
        p(x),
{
    s.lemma_filter_contains_rev(p, x);
    let k = choose|k: int| 0 <= k < s.filter(p).len() && s.filter(p)[k] == x;
    s.lemma_filter_pred(p, k);
}

/// The first index holding `x`, or `None` when no entry holds it.
pub fn position_of(ids: &Vec<String>, x: &String) -> (r: Option<usize>)
    ensures
        match r {
            Some(i) => {
                &&& i < ids.len()
                &&& ids@[i as int]@ == x@
                &&& forall|k: int| 0 <= k < i ==> ids@[k]@ != x@
            },
            None => !views(ids@).contains(x@),
        },
{
    let mut i: usize = 0;
    while i < ids.len()
        invariant
            i <= ids.len(),
            forall|k: int| 0 <= k < i ==> ids@[k]@ != x@,
        decreases ids.len() - i,
    {
        if ids[i] == *x {
            return Some(i);
        }
        i = i + 1;
    }
    proof {
        if views(ids@).contains(x@) {
            let k = choose|k: int| 0 <= k < views(ids@).len() && views(ids@)[k] == x@;
            assert(ids@[k]@ == x@);
        }
    }
    None
}

/// Whether `x` is among `ids`.
pub fn contains_id(ids: &Vec<String>, x: &String) -> (r: bool)
    ensures
        r == views(ids@).contains(x@),
{
    match position_of(ids, x) {
        Some(i) => {
            assert(views(ids@)[i as int] == x@);
            true
        },
        None => false,
    }
}

/// Whether no identity occurs twice.
pub fn ids_unique(ids: &Vec<String>) -> (r: bool)
    ensures
        r == views(ids@).no_duplicates(),
{
    let mut i: usize = 0;
    while i < ids.len()
        invariant
            i <= ids.len(),
            forall|a: int, b: int| 0 <= a < b < i ==> ids@[a]@ != ids@[b]@,
        decreases ids.len() - i,
    {
        let mut j: usize = 0;
        while j < i
            invariant
                i < ids.len(),
                j <= i,
                forall|a: int| 0 <= a < j ==> ids@[a]@ != ids@[i as int]@,
            decreases i - j,
        {
            if ids[j] == ids[i] {
                assert(views(ids@)[j as int] == views(ids@)[i as int]);
                return false;
            }
            j = j + 1;
        }
        i = i + 1;
    }
    assert forall|a: int, b: int|
        0 <= a < views(ids@).len() && 0 <= b < views(ids@).len() && a != b implies views(
        ids@,
    )[a] != views(ids@)[b] by {
        if a < b {
            assert(ids@[a]@ != ids@[b]@);
        } else {
            assert(ids@[b]@ != ids@[a]@);
        }
    }
    true
}

/// The entries of `v` whose identity is among `keep`, in order.
pub fn retain_ids(v: &Vec<String>, keep: &Vec<String>) -> (r: Vec<String>)
    ensures
        views(r@) == views(v@).filter(member_of(views(keep@))),
{
    let mut r: Vec<String> = Vec::new();
    let mut i: usize = 0;
    while i < v.len()
        invariant
            i <= v.len(),
            views(r@) == views(v@).take(i as int).filter(member_of(views(keep@))),
        decreases v.len() - i,
    {
        let ghost before = r@;
        assert(views(v@).take(i + 1) =~= views(v@).take(i as int).push(v@[i as int]@));
        proof {
            views(v@).take(i as int).lemma_filter_push(v@[i as int]@, member_of(views(keep@)));
        }
        if contains_id(keep, &v[i]) {
            r.push(v[i].clone());
            proof {
                lemma_views_push(before, v@[i as int]);
            }
        }
        i = i + 1;
    }
    assert(views(v@).take(v.len() as int) =~= views(v@));
    r
}

} // verus!
