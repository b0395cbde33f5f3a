//! Keyboard focus over a row of controls where some are unavailable:
//! which ones can hold focus, where focus goes when it is lost, and how it
//! moves with the arrow keys.

use vstd::prelude::*;
use crate::ids::{opt_view, views};

verus! {

broadcast use vstd::seq_lib::group_seq_properties;

/// Whether `id` names a control that can hold focus.
pub open spec fn enabled_id(ids: Seq<Seq<char>>, enabled: Seq<bool>, id: Seq<char>) -> bool {
    exists|k: int| 0 <= k < ids.len() && ids[k] == id && enabled[k]
}

/// The first control that can hold focus, if any.
pub open spec fn first_enabled_spec(ids: Seq<Seq<char>>, enabled: Seq<bool>) -> Option<Seq<char>>
    decreases ids.len(),
{
    if ids.len() == 0 || enabled.len() != ids.len() {
        None
    } else {
        let prev = first_enabled_spec(ids.drop_last(), enabled.drop_last());
        if prev is Some {
            prev
        } else if enabled.last() {
            Some(ids.last())
        } else {
            None
        }
    }
}

/// The positions of the controls that can hold focus, in order.
pub open spec fn enabled_positions_spec(enabled: Seq<bool>) -> Seq<int>
    decreases enabled.len(),
{
    if enabled.len() == 0 {
        seq![]
    } else {
        let prev = enabled_positions_spec(enabled.drop_last());
        if enabled.last() {
            prev.push(enabled.len() - 1)
        } else {
            prev
        }
    }
}

/// Where focus stands among the focusable controls (0 when nowhere).
pub open spec fn rank_spec(ids: Seq<Seq<char>>, enabled: Seq<bool>, focused: Option<Seq<char>>) -> int {
    let e = enabled_positions_spec(enabled);
    match focused {
        Some(f) => if exists|k: int| 0 <= k < e.len() && ids[e[k]] == f {
            choose|k: int| 0 <= k < e.len() && ids[e[k]] == f
        } else {
            0
        },
        None => 0,
    }
}

/// The position focus moves to, `delta` focusable controls from the
/// current one, wrapping at either end.
pub open spec fn moved_spec(ids: Seq<Seq<char>>, enabled: Seq<bool>, focused: Option<Seq<char>>, delta: int) -> int {
    let e = enabled_positions_spec(enabled);
    e[(rank_spec(ids, enabled, focused) + delta) % (e.len() as int)]
}

/// Keeps focus on a control that can hold it, or moves it to the first one.
pub open spec fn kept_focus_spec(ids: Seq<Seq<char>>, enabled: Seq<bool>, focused: Option<Seq<char>>) -> Option<Seq<char>> {
    match focused {
        Some(x) => if enabled_id(ids, enabled, x) { Some(x) } else { first_enabled_spec(ids, enabled) },
        None => first_enabled_spec(ids, enabled),
    }
}

/// Facts about the focusable positions.
pub proof fn lemma_enabled_positions(ids: Seq<Seq<char>>, enabled: Seq<bool>)
    requires
        ids.len() == enabled.len(),
    ensures
        forall|k: int| 0 <= k < enabled_positions_spec(enabled).len() ==> 0 <= #[trigger] enabled_positions_spec(enabled)[k] < enabled.len()
            && enabled[enabled_positions_spec(enabled)[k]],
        forall|a: int, b: int| 0 <= a < b < enabled_positions_spec(enabled).len() ==> enabled_positions_spec(enabled)[a] < enabled_positions_spec(enabled)[b],
        enabled_positions_spec(enabled).len() == 0 <==> first_enabled_spec(ids, enabled) is None,
        first_enabled_spec(ids, enabled) matches Some(x) ==> ids[enabled_positions_spec(enabled)[0]] == x,
        (exists|k: int| 0 <= k < enabled.len() && enabled[k]) <==> enabled_positions_spec(enabled).len() > 0,
        forall|i: int| 0 <= i < enabled.len() && enabled[i] ==> enabled_positions_spec(enabled).contains(i),
    decreases ids.len(),
{
    if ids.len() > 0 {
        let ri = ids.drop_last();
        let re = enabled.drop_last();
        lemma_enabled_positions(ri, re);
        let e = enabled_positions_spec(enabled);
        let pe = enabled_positions_spec(re);
        assert forall|k: int| 0 <= k < e.len() implies 0 <= #[trigger] e[k] < enabled.len() && enabled[e[k]] by {
            if k < pe.len() {
                assert(e[k] == pe[k]);
                assert(re[pe[k]] == enabled[pe[k]]);
            }
        }
        if first_enabled_spec(ri, re) is Some {
            assert(ri[pe[0]] == ids[pe[0]]);
            assert(e[0] == pe[0]);
        }
        if exists|k: int| 0 <= k < enabled.len() && enabled[k] {
            let k = choose|k: int| 0 <= k < enabled.len() && enabled[k];
            if k < enabled.len() - 1 {
                assert(re[k]);
            }
        }
        if pe.len() > 0 {
            let k = pe[0];
            assert(re[k] == enabled[k]);
        }
        assert forall|i: int| 0 <= i < enabled.len() && enabled[i] implies e.contains(i) by {
            if i < enabled.len() - 1 {
                assert(re[i] == enabled[i]);
                assert(pe.contains(i));
                let k = choose|k: int| 0 <= k < pe.len() && pe[k] == i;
                assert(e[k] == pe[k]);
            } else {
                assert(e[e.len() - 1] == i);
            }
        }
    }
}

/// With distinct identities, the rank of the control at the `a`-th
/// focusable position is `a`.
proof fn lemma_rank_of_position(ids: Seq<Seq<char>>, enabled: Seq<bool>, a: int)
    requires
        ids.len() == enabled.len(),
        ids.no_duplicates(),
        0 <= a < enabled_positions_spec(enabled).len(),
    ensures
        rank_spec(ids, enabled, Some(ids[enabled_positions_spec(enabled)[a]])) == a,
{
    lemma_enabled_positions(ids, enabled);
    let e = enabled_positions_spec(enabled);
    let f = ids[e[a]];
    let c = choose|k: int| 0 <= k < e.len() && ids[e[k]] == f;
    if c != a {
        if c < a {
            assert(e[c] < e[a]);
        } else {
            assert(e[a] < e[c]);
        }
        assert(ids[e[c]] != ids[e[a]]);
    }
}

/// Moving focus is undone by moving it back: from a control that can hold
/// focus, moving `delta` focusable controls and then `-delta` returns to
/// the same control.
pub proof fn lemma_move_focus_round_trip(ids: Seq<Seq<char>>, enabled: Seq<bool>, f: Seq<char>, delta: int)
    requires
        ids.len() == enabled.len(),
        ids.no_duplicates(),
        enabled_id(ids, enabled, f),
    ensures
        ids[moved_spec(ids, enabled, Some(ids[moved_spec(ids, enabled, Some(f), delta)]), -delta)] == f,
{
    lemma_enabled_positions(ids, enabled);
    let e = enabled_positions_spec(enabled);
    let k0 = choose|k: int| 0 <= k < ids.len() && ids[k] == f && enabled[k];
    assert(e.contains(k0));
    let r = choose|a: int| 0 <= a < e.len() && e[a] == k0;
    let n = e.len() as int;
    lemma_rank_of_position(ids, enabled, r);
    let m = (r + delta) % n;
    assert(0 <= m < n);
    lemma_rank_of_position(ids, enabled, m);
    vstd::arithmetic::div_mod::lemma_add_mod_noop_right(-delta, r + delta, n);
    vstd::arithmetic::div_mod::lemma_small_mod(r as nat, n as nat);
    assert((m + -delta) % n == r);
}

/// The first position whose identity is `id` and that can hold focus.
pub fn enabled_index(ids: &Vec<String>, enabled: &Vec<bool>, id: &String) -> (r: Option<usize>)
    requires
        ids@.len() == enabled@.len(),
    ensures
        match r {
            Some(k) => k < ids@.len() && ids@[k as int]@ == id@ && enabled@[k as int],
            None => !enabled_id(views(ids@), enabled@, id@),
        },
{
    let mut i: usize = 0;
    while i < ids.len()
        invariant
            i <= ids@.len(),
            ids@.len() == enabled@.len(),
            forall|j: int| 0 <= j < i ==> !(ids@[j]@ == id@ && enabled@[j]),
        decreases ids@.len() - i,
    {
        if enabled[i] && ids[i] == *id {
            return Some(i);
        }
        i = i + 1;
    }
    assert(!enabled_id(views(ids@), enabled@, id@)) by {
        if enabled_id(views(ids@), enabled@, id@) {
            let k = choose|k: int| 0 <= k < views(ids@).len() && views(ids@)[k] == id@ && enabled@[k];
            assert(ids@[k]@ == id@);
        }
    }
    None
}

proof fn lemma_first_enabled_prefix(ids: Seq<Seq<char>>, enabled: Seq<bool>, m: int)
    requires
        0 <= m <= ids.len(),
        ids.len() == enabled.len(),
        first_enabled_spec(ids.take(m), enabled.take(m)) is Some,
    ensures
        first_enabled_spec(ids, enabled) == first_enabled_spec(ids.take(m), enabled.take(m)),
    decreases ids.len() - m,
{
    if m < ids.len() {
        assert(ids.drop_last().take(m) =~= ids.take(m));
        assert(enabled.drop_last().take(m) =~= enabled.take(m));
        lemma_first_enabled_prefix(ids.drop_last(), enabled.drop_last(), m);
    } else {
        assert(ids.take(m) =~= ids);
        assert(enabled.take(m) =~= enabled);
    }
}

/// The first identity that can hold focus.
pub fn first_enabled(ids: &Vec<String>, enabled: &Vec<bool>) -> (r: Option<String>)
    requires
        ids@.len() == enabled@.len(),
    ensures
        opt_view(r) == first_enabled_spec(views(ids@), enabled@),
{
    let ghost v = views(ids@);
    let mut i: usize = 0;
    while i < ids.len()
        invariant
            i <= ids@.len(),
            ids@.len() == enabled@.len(),
            v == views(ids@),
            first_enabled_spec(v.take(i as int), enabled@.take(i as int)) is None,
        decreases ids@.len() - i,
    {
        assert(v.take(i + 1).drop_last() =~= v.take(i as int));
        assert(enabled@.take(i + 1).drop_last() =~= enabled@.take(i as int));
        assert(v.take(i + 1).last() == ids@[i as int]@);
        assert(enabled@.take(i + 1).last() == enabled@[i as int]);
        if enabled[i] {
            proof {
                lemma_first_enabled_prefix(v, enabled@, i + 1);
            }
            return Some(ids[i].clone());
        }
        i = i + 1;
    }
    assert(v.take(i as int) =~= v);
    assert(enabled@.take(i as int) =~= enabled@);
    None
}

/// Keeps focus on a control that can hold it, or moves it to the first one.
pub fn keep_focus(ids: &Vec<String>, enabled: &Vec<bool>, focused: &Option<String>) -> (r: Option<String>)
    requires
        ids@.len() == enabled@.len(),
    ensures
        opt_view(r) == kept_focus_spec(views(ids@), enabled@, opt_view(*focused)),
        r matches Some(x) ==> enabled_id(views(ids@), enabled@, x@),
{
    proof {
        lemma_enabled_positions(views(ids@), enabled@);
    }
    let kept = match focused {
        Some(x) => match enabled_index(ids, enabled, x) {
            Some(k) => {
                assert(views(ids@)[k as int] == x@);
                Some(x.clone())
            },
            None => None,
        },
        None => None,
    };
    if kept.is_some() {
        kept
    } else {
        let first = first_enabled(ids, enabled);
        proof {
            match first_enabled_spec(views(ids@), enabled@) {
                Some(x) => {
                    let k = enabled_positions_spec(enabled@)[0];
                    assert(views(ids@)[k] == x);
                    assert(enabled@[k]);
                },
                None => {},
            }
        }
        first
    }
}

/// Moves focus `delta` focusable controls from the current one, wrapping at
/// either end; `None` when nothing can hold focus.
pub fn move_focus(ids: &Vec<String>, enabled: &Vec<bool>, focused: &Option<String>, delta: isize) -> (r: Option<usize>)
    requires
        ids@.len() == enabled@.len(),
        views(ids@).no_duplicates(),
    ensures
        r is Some == (exists|k: int| 0 <= k < enabled@.len() && enabled@[k]),
        r matches Some(k) ==> k < ids@.len() && enabled@[k as int]
            && k as int == moved_spec(views(ids@), enabled@, opt_view(*focused), delta as int),
{
    let ghost v = views(ids@);
    let ghost e = enabled_positions_spec(enabled@);
    proof {
        lemma_enabled_positions(v, enabled@);
    }
    let mut positions: Vec<usize> = Vec::new();
    let mut i: usize = 0;
    while i < enabled.len()
        invariant
            i <= enabled@.len(),
            positions@.len() == enabled_positions_spec(enabled@.take(i as int)).len(),
            forall|k: int| 0 <= k < positions@.len() ==> positions@[k] as int == #[trigger] enabled_positions_spec(enabled@.take(i as int))[k],
        decreases enabled@.len() - i,
    {
        assert(enabled@.take(i + 1).drop_last() =~= enabled@.take(i as int));
        assert(enabled@.take(i + 1).last() == enabled@[i as int]);
        if enabled[i] {
            positions.push(i);
        }
        i = i + 1;
    }
    assert(enabled@.take(i as int) =~= enabled@);
    if positions.len() == 0 {
        return None;
    }
    let mut current: usize = 0;
    if let Some(f) = focused {
        let mut found = false;
        let mut k: usize = 0;
        while k < positions.len()
            invariant
                k <= positions@.len(),
                positions@.len() == e.len(),
                e == enabled_positions_spec(enabled@),
                v == views(ids@),
                v.no_duplicates(),
                ids@.len() == enabled@.len(),
                forall|a: int| 0 <= a < e.len() ==> positions@[a] as int == #[trigger] e[a] && 0 <= e[a] < ids@.len(),
                forall|a: int, b: int| 0 <= a < b < e.len() ==> e[a] < e[b],
                found ==> current < k && current as int == rank_spec(v, enabled@, Some(f@)),
                !found ==> current == 0 && forall|a: int| 0 <= a < k ==> v[e[a]] != f@,
            decreases positions@.len() - k,
        {
            let p = positions[k];
            assert(0 <= e[k as int] < ids@.len());
            if !found && ids[p] == *f {
                current = k;
                found = true;
                proof {
                    assert(v[e[k as int]] == f@);
                    let c = choose|a: int| 0 <= a < e.len() && v[e[a]] == f@;
                    if c != k as int {
                        if c < k as int {
                            assert(e[c] < e[k as int]);
                        } else {
                            assert(e[k as int] < e[c]);
                        }
                        assert(v[e[c]] != v[e[k as int]]);
                    }
                }
            }
            k = k + 1;
        }
        proof {
            if !found {
                assert(!(exists|a: int| 0 <= a < e.len() && v[e[a]] == f@));
            }
        }
    }
    let next = wrap_index(current, delta, positions.len());
    let index = positions[next];
    assert(0 <= e[next as int] < ids@.len());
    Some(index)
}

pub(crate) fn wrap_index(current: usize, delta: isize, len: usize) -> (r: usize)
    requires
        len > 0,
    ensures
        r as int == (current as int + delta as int) % (len as int),
        r < len,
{
    let n = len as u128;
    let x = current as i128 + delta as i128;
    let r: u128 = if x >= 0 {
        let y = x as u128;
        let r = y % n;
        proof {
            vstd::arithmetic::div_mod::lemma_fundamental_div_mod(y as int, n as int);
            let q = (y / n) as int;
            assert(x as int == q * (n as int) + r as int) by (nonlinear_arith)
                requires
                    y as int == (n as int) * q + r as int,
                    x as int == y as int,
            ;
            vstd::arithmetic::div_mod::lemma_fundamental_div_mod_converse(
                x as int,
                n as int,
                (y / n) as int,
                r as int,
            );
        }
        r
    } else {
        let y = (-x) as u128;
        let r0 = y % n;
        proof {
            vstd::arithmetic::div_mod::lemma_fundamental_div_mod(y as int, n as int);
        }
        let ghost q = (y / n) as int;
        assert(y as int == (n as int) * q + r0 as int);
        assert(x as int == -(y as int));
        if r0 == 0 {
            proof {
                assert(x as int == (-q) * (n as int) + 0) by (nonlinear_arith)
                    requires
                        y as int == (n as int) * q + 0,
                        x as int == -(y as int),
                ;
                vstd::arithmetic::div_mod::lemma_fundamental_div_mod_converse(
                    x as int,
                    n as int,
                    -((y / n) as int),
                    0,
                );
            }
            0
        } else {
            proof {
                assert(x as int == (-q - 1) * (n as int) + (n - r0) as int) by (nonlinear_arith)
                    requires
                        y as int == (n as int) * q + r0 as int,
                        x as int == -(y as int),
                        r0 < n,
                ;
                vstd::arithmetic::div_mod::lemma_fundamental_div_mod_converse(
                    x as int,
                    n as int,
                    -((y / n) as int) - 1,
                    (n - r0) as int,
                );
            }
            n - r0
        }
    };
    r as usize
}


} // verus!
