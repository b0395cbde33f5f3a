//! Interaction cues: the moments an application may want to mark with a
//! sound, haptic, or notification. Components emit a [`Cue`] at the moments
//! that matter and an application observes them in one place. The
//! [`CueHub`] keeps the observer registry: who is registered, in what
//! order, and who has been dropped; the observers themselves are the
//! application's callbacks, keyed by the identity the hub hands out.
//! Cues are hints, never state.

use vstd::prelude::*;

verus! {

broadcast use vstd::seq_lib::group_seq_properties;

/// A moment worth a cue.
#[derive(Debug, Clone, PartialEq, Eq)]
pub enum Cue {
    /// A new message entered a conversation.
    MessageArrived {
        /// Stable message identifier.
        message_id: String,
    },
    /// A streaming response finished (successfully or not).
    ResponseSettled {
        /// Stable message identifier.
        message_id: String,
        /// Whether the response completed rather than failed.
        succeeded: bool,
    },
    /// Text was copied to the clipboard.
    Copied,
    /// The user submitted a prompt.
    Submitted,
    /// The user cancelled running work.
    Cancelled,
    /// The user chose a starter suggestion.
    SuggestionSelected,
    /// The user switched conversations.
    ThreadSelected,
    /// A tool call or approval request was decided.
    Decided {
        /// Whether the decision was an approval.
        approved: bool,
    },
}

/// Keeps a cue observer registered until it is dropped through the hub.
#[derive(Debug)]
pub struct CueSubscription {
    id: u64,
}

impl CueSubscription {
    /// The identity of the observer this subscription keeps registered.
    pub closed spec fn id_spec(self) -> u64 {
        self.id
    }

    /// Returns the identity of the observer this subscription keeps
    /// registered.
    pub fn id(&self) -> (r: u64)
        ensures
            r == self.id_spec(),
    {
        self.id
    }

    /// Detaches the observer for the rest of the hub's lifetime: the
    /// subscription is consumed without unregistering it.
    pub fn detach(self) -> (r: u64)
        ensures
            r == self.id_spec(),
    {
        self.id
    }
}

/// Whether the observer `id` holds an active registration.
pub open spec fn live(regs: Seq<(u64, bool)>, id: u64) -> bool {
    exists|i: int| 0 <= i < regs.len() && regs[i] == (id, true)
}

/// The observers a cue is delivered to, in registration order: the
/// identities of the registrations still active.
pub open spec fn delivered(regs: Seq<(u64, bool)>) -> Seq<u64>
    decreases regs.len(),
{
    if regs.len() == 0 {
        Seq::empty()
    } else {
        let earlier = delivered(regs.drop_last());
        if regs.last().1 {
            earlier.push(regs.last().0)
        } else {
            earlier
        }
    }
}

/// The registrations left after pruning the inactive ones.
pub open spec fn pruned(regs: Seq<(u64, bool)>) -> Seq<(u64, bool)>
    decreases regs.len(),
{
    if regs.len() == 0 {
        Seq::empty()
    } else {
        let earlier = pruned(regs.drop_last());
        if regs.last().1 {
            earlier.push(regs.last())
        } else {
            earlier
        }
    }
}

/// The registrations after the observer `id` was dropped: its
/// registration is inactive, every other one unchanged.
pub open spec fn dropped(regs: Seq<(u64, bool)>, id: u64) -> Seq<(u64, bool)> {
    Seq::new(regs.len(), |i: int| if regs[i].0 == id { (regs[i].0, false) } else { regs[i] })
}

/// Registration identities strictly increase, and all lie below `next`.
pub open spec fn registry_wf(regs: Seq<(u64, bool)>, next: u64) -> bool {
    &&& forall|i: int, j: int| 0 <= i < j < regs.len() ==> regs[i].0 < regs[j].0
    &&& forall|i: int| 0 <= i < regs.len() ==> regs[i].0 < next
}

/// What a cue reaches, as a membership test: exactly the identities of
/// active registrations.
pub proof fn lemma_delivered_members(regs: Seq<(u64, bool)>, x: u64)
    ensures
        delivered(regs).contains(x) <==> exists|i: int| 0 <= i < regs.len() && regs[i] == (x, true),
    decreases regs.len(),
{
    if regs.len() > 0 {
        let d = regs.drop_last();
        lemma_delivered_members(d, x);
        if exists|i: int| 0 <= i < d.len() && d[i] == (x, true) {
            let i = choose|i: int| 0 <= i < d.len() && d[i] == (x, true);
            assert(regs[i] == (x, true));
        }
        if exists|i: int| 0 <= i < regs.len() && regs[i] == (x, true) {
            let i = choose|i: int| 0 <= i < regs.len() && regs[i] == (x, true);
            if i < regs.len() - 1 {
                assert(d[i] == (x, true));
            }
        }
        if regs.last().1 {
            let e = delivered(d);
            if e.push(regs.last().0).contains(x) && !e.contains(x) {
                let k = choose|k: int| 0 <= k < e.push(regs.last().0).len() && e.push(regs.last().0)[k] == x;
                assert(k == e.len());
            }
            if e.contains(x) {
                let k = choose|k: int| 0 <= k < e.len() && e[k] == x;
                assert(e.push(regs.last().0)[k] == x);
            }
        }
    }
}

proof fn lemma_pruned_delivers(regs: Seq<(u64, bool)>)
    ensures
        delivered(pruned(regs)) == delivered(regs),
        forall|i: int| 0 <= i < pruned(regs).len() ==> #[trigger] pruned(regs)[i].1,
    decreases regs.len(),
{
    if regs.len() > 0 {
        lemma_pruned_delivers(regs.drop_last());
        let p = pruned(regs.drop_last());
        if regs.last().1 {
            assert(p.push(regs.last()).drop_last() =~= p);
        }
    }
}

/// A new observer receives the next cue, after every observer already
/// live; registering changes nothing else about delivery.
pub proof fn lemma_observe_then_deliver(regs: Seq<(u64, bool)>, id: u64)
    ensures
        delivered(regs.push((id, true))) == delivered(regs).push(id),
{
    assert(regs.push((id, true)).drop_last() =~= regs);
}

/// A dropped observer receives no later cue, and every other observer is
/// delivered to exactly as before.
pub proof fn lemma_drop_stops_delivery(regs: Seq<(u64, bool)>, id: u64, other: u64)
    ensures
        !delivered(dropped(regs, id)).contains(id),
        other != id ==> (delivered(dropped(regs, id)).contains(other) <==> delivered(regs).contains(other)),
{
    let d = dropped(regs, id);
    lemma_delivered_members(d, id);
    lemma_delivered_members(d, other);
    lemma_delivered_members(regs, other);
    if exists|i: int| 0 <= i < d.len() && d[i] == (id, true) {
        let i = choose|i: int| 0 <= i < d.len() && d[i] == (id, true);
        assert(d[i].1 == false);
    }
    if other != id {
        if exists|i: int| 0 <= i < regs.len() && regs[i] == (other, true) {
            let i = choose|i: int| 0 <= i < regs.len() && regs[i] == (other, true);
            assert(d[i] == (other, true));
        }
        if exists|i: int| 0 <= i < d.len() && d[i] == (other, true) {
            let i = choose|i: int| 0 <= i < d.len() && d[i] == (other, true);
            assert(regs[i] == (other, true));
        }
    }
}

/// Emitting prunes without changing who is delivered to: a cue emitted
/// right after another reaches the same observers.
pub proof fn lemma_emit_is_stable(regs: Seq<(u64, bool)>)
    ensures
        delivered(pruned(regs)) == delivered(regs),
        pruned(pruned(regs)) == pruned(regs),
        delivered(Seq::<(u64, bool)>::empty()) == Seq::<u64>::empty(),
    decreases regs.len(),
{
    lemma_pruned_delivers(regs);
    lemma_pruned_keeps_active(pruned(regs));
}

proof fn lemma_pruned_keeps_active(regs: Seq<(u64, bool)>)
    requires
        forall|i: int| 0 <= i < regs.len() ==> #[trigger] regs[i].1,
    ensures
        pruned(regs) == regs,
    decreases regs.len(),
{
    if regs.len() > 0 {
        lemma_pruned_keeps_active(regs.drop_last());
        assert(regs.drop_last().push(regs.last()) =~= regs);
    }
}

proof fn lemma_pruned_wf(regs: Seq<(u64, bool)>, next: u64)
    requires
        registry_wf(regs, next),
    ensures
        registry_wf(pruned(regs), next),
        forall|k: int| 0 <= k < pruned(regs).len() ==> exists|j: int| 0 <= j < regs.len() && #[trigger] pruned(regs)[k] == regs[j],
    decreases regs.len(),
{
    if regs.len() > 0 {
        let d = regs.drop_last();
        assert(registry_wf(d, next));
        lemma_pruned_wf(d, next);
        let p = pruned(d);
        assert forall|k: int| 0 <= k < p.len() implies exists|j: int| 0 <= j < regs.len() && #[trigger] p[k] == regs[j] by {
            let j = choose|j: int| 0 <= j < d.len() && p[k] == d[j];
            assert(p[k] == regs[j]);
        }
        if regs.last().1 {
            let q = p.push(regs.last());
            assert forall|k: int| 0 <= k < q.len() implies exists|j: int| 0 <= j < regs.len() && #[trigger] q[k] == regs[j] by {
                if k < p.len() {
                    let j = choose|j: int| 0 <= j < regs.len() && p[k] == regs[j];
                    assert(q[k] == regs[j]);
                } else {
                    assert(q[k] == regs[regs.len() - 1]);
                }
            }
            assert forall|a: int, b: int| 0 <= a < b < q.len() implies q[a].0 < q[b].0 by {
                if b < p.len() {
                    assert(q[a] == p[a] && q[b] == p[b]);
                } else {
                    let j = choose|j: int| 0 <= j < d.len() && p[a] == d[j];
                    assert(q[a] == regs[j]);
                }
            }
        }
    }
}

proof fn lemma_delivered_sorted(regs: Seq<(u64, bool)>, next: u64)
    requires
        registry_wf(regs, next),
    ensures
        forall|a: int, b: int| 0 <= a < b < delivered(regs).len() ==> delivered(regs)[a] < delivered(regs)[b],
        forall|k: int| 0 <= k < delivered(regs).len() ==> exists|j: int|
            0 <= j < regs.len() && #[trigger] delivered(regs)[k] == regs[j].0,
    decreases regs.len(),
{
    if regs.len() > 0 {
        let d = regs.drop_last();
        assert(registry_wf(d, next));
        lemma_delivered_sorted(d, next);
        let e = delivered(d);
        assert forall|k: int| 0 <= k < e.len() implies exists|j: int|
            0 <= j < regs.len() && #[trigger] e[k] == regs[j].0 by {
            let j = choose|j: int| 0 <= j < d.len() && e[k] == d[j].0;
            assert(e[k] == regs[j].0);
        }
        if regs.last().1 {
            let q = e.push(regs.last().0);
            assert forall|a: int, b: int| 0 <= a < b < q.len() implies q[a] < q[b] by {
                if b < e.len() {
                    assert(q[a] == e[a] && q[b] == e[b]);
                } else {
                    let j = choose|j: int| 0 <= j < d.len() && e[a] == d[j].0;
                    assert(q[a] == regs[j].0);
                    assert(regs[j].0 < regs[regs.len() - 1].0);
                }
            }
            assert forall|k: int| 0 <= k < q.len() implies exists|j: int|
                0 <= j < regs.len() && #[trigger] q[k] == regs[j].0 by {
                if k < e.len() {
                    assert(q[k] == e[k]);
                } else {
                    assert(q[k] == regs[regs.len() - 1].0);
                }
            }
        }
    }
}

/// An observer that stays registered (its subscription detached rather
/// than dropped) receives each cue exactly once, and is still registered
/// for the next cue, whatever other observers are added or dropped.
pub proof fn lemma_detached_observer_receives_each_cue_once(
    regs: Seq<(u64, bool)>,
    next: u64,
    id: u64,
    other: u64,
)
    requires
        registry_wf(regs, next),
        exists|i: int| 0 <= i < regs.len() && regs[i] == (id, true),
    ensures
        delivered(regs).contains(id),
        delivered(regs).no_duplicates(),
        exists|i: int| 0 <= i < pruned(regs).len() && pruned(regs)[i] == (id, true),
        other != id ==> exists|i: int| 0 <= i < dropped(regs, other).len() && dropped(regs, other)[i] == (id, true),
        exists|i: int| 0 <= i < regs.push((next, true)).len() && regs.push((next, true))[i] == (id, true),
{
    lemma_delivered_members(regs, id);
    lemma_delivered_sorted(regs, next);
    lemma_pruned_delivers(regs);
    lemma_delivered_members(pruned(regs), id);
    let i = choose|i: int| 0 <= i < regs.len() && regs[i] == (id, true);
    assert(regs.push((next, true))[i] == (id, true));
    if other != id {
        assert(dropped(regs, other)[i] == (id, true));
    }
}

/// The observer registry: registrations in order with whether each is
/// still active, and the next identity to hand out.
#[derive(Debug)]
pub struct CueHub {
    registrations: Vec<(u64, bool)>,
    next_id: u64,
}

impl CueHub {
    /// The registrations, oldest first, each with whether it is active.
    pub closed spec fn regs(self) -> Seq<(u64, bool)> {
        self.registrations@
    }

    /// How many identities have been handed out.
    pub closed spec fn issued(self) -> u64 {
        self.next_id
    }

    /// Well-formedness: identities strictly increase and were all issued.
    pub open spec fn wf(self) -> bool {
        registry_wf(self.regs(), self.issued())
    }

    /// An empty registry.
    pub fn new() -> (r: Self)
        ensures
            r.wf(),
            r.regs() == Seq::<(u64, bool)>::empty(),
            r.issued() == 0,
    {
        CueHub { registrations: Vec::new(), next_id: 0 }
    }

    /// Returns how many identities have been handed out.
    pub fn issued_count(&self) -> (r: u64)
        ensures
            r == self.issued(),
    {
        self.next_id
    }

    /// Registers a new observer; it receives every cue emitted until its
    /// subscription is dropped.
    pub fn observe(&mut self) -> (r: CueSubscription)
        requires
            old(self).wf(),
            old(self).issued() < u64::MAX,
        ensures
            final(self).wf(),
            r.id_spec() == old(self).issued(),
            final(self).regs() == old(self).regs().push((r.id_spec(), true)),
            final(self).issued() == old(self).issued() + 1,
            live(final(self).regs(), r.id_spec()),
            forall|x: u64| live(old(self).regs(), x) ==> live(final(self).regs(), x),
    {
        let id = self.next_id;
        self.registrations.push((id, true));
        self.next_id = id + 1;
        assert(self.registrations@[self.registrations@.len() - 1] == (id, true));
        assert forall|x: u64| live(old(self).regs(), x) implies live(self.regs(), x) by {
            let i = choose|i: int| 0 <= i < old(self).regs().len() && old(self).regs()[i] == (x, true);
            assert(self.regs()[i] == (x, true));
        }
        CueSubscription { id }
    }

    /// Drops a subscription: its observer receives no later cue.
    pub fn drop_subscription(&mut self, subscription: CueSubscription)
        requires
            old(self).wf(),
        ensures
            final(self).wf(),
            final(self).regs() == dropped(old(self).regs(), subscription.id_spec()),
            final(self).issued() == old(self).issued(),
            !live(final(self).regs(), subscription.id_spec()),
            forall|x: u64| x != subscription.id_spec() ==> (live(final(self).regs(), x) == live(old(self).regs(), x)),
    {
        let id = subscription.id;
        let ghost before = self.registrations@;
        let mut i: usize = 0;
        while i < self.registrations.len()
            invariant
                i <= self.registrations@.len(),
                self.registrations@.len() == before.len(),
                self.next_id == old(self).next_id,
                before == old(self).registrations@,
                forall|k: int| 0 <= k < i ==> self.registrations@[k] == dropped(before, id)[k],
                forall|k: int| i <= k < before.len() ==> self.registrations@[k] == before[k],
            decreases self.registrations@.len() - i,
        {
            let (rid, active) = self.registrations[i];
            if rid == id {
                self.registrations.set(i, (rid, false));
            }
            i = i + 1;
        }
        assert(self.registrations@ =~= dropped(before, id));
        assert forall|x: u64| x != id implies (live(self.regs(), x) == live(before, x)) by {
            if live(before, x) {
                let i = choose|i: int| 0 <= i < before.len() && before[i] == (x, true);
                assert(self.regs()[i] == (x, true));
            }
            if live(self.regs(), x) {
                let i = choose|i: int| 0 <= i < self.regs().len() && self.regs()[i] == (x, true);
                assert(before[i] == (x, true));
            }
        }
        proof {
            if live(self.regs(), id) {
                let i = choose|i: int| 0 <= i < self.regs().len() && self.regs()[i] == (id, true);
                assert(self.regs()[i].1 == false);
            }
        }
    }

    /// Emits a cue: prunes the dropped registrations and returns the
    /// observers to deliver it to, in registration order. Without
    /// observers this delivers nothing.
    pub fn emit(&mut self) -> (r: Vec<u64>)
        requires
            old(self).wf(),
        ensures
            final(self).wf(),
            r@ == delivered(old(self).regs()),
            final(self).regs() == pruned(old(self).regs()),
            final(self).issued() == old(self).issued(),
            r@.no_duplicates(),
            forall|x: u64| #[trigger] r@.contains(x) == live(old(self).regs(), x),
            forall|x: u64| live(final(self).regs(), x) == live(old(self).regs(), x),
    {
        let mut kept: Vec<(u64, bool)> = Vec::new();
        let mut ids: Vec<u64> = Vec::new();
        let ghost regs = self.registrations@;
        let mut i: usize = 0;
        while i < self.registrations.len()
            invariant
                i <= regs.len(),
                regs == self.registrations@,
                kept@ == pruned(regs.take(i as int)),
                ids@ == delivered(regs.take(i as int)),
            decreases regs.len() - i,
        {
            assert(regs.take(i + 1).drop_last() =~= regs.take(i as int));
            let entry = self.registrations[i];
            if entry.1 {
                kept.push(entry);
                ids.push(entry.0);
            }
            i = i + 1;
        }
        assert(regs.take(i as int) =~= regs);
        proof {
            lemma_pruned_wf(regs, self.next_id);
            lemma_delivered_sorted(regs, self.next_id);
            lemma_pruned_delivers(regs);
            assert forall|x: u64| #[trigger] ids@.contains(x) == live(regs, x) by {
                lemma_delivered_members(regs, x);
            }
            assert forall|x: u64| live(pruned(regs), x) == live(regs, x) by {
                lemma_delivered_members(regs, x);
                lemma_delivered_members(pruned(regs), x);
            }
        }
        self.registrations = kept;
        ids
    }
}

} // verus!
