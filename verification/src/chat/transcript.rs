//! Transcript identity, structural diffing, and the retained per-message state
//! that must follow a controlled snapshot as it is replaced.

use vstd::prelude::*;
use crate::ids::{
    views, member_of, lemma_views_push, lemma_filter_no_duplicates, lemma_filter_subset, position_of,
    contains_id, ids_unique, retain_ids, opt_view,
};
use crate::stream::ProgressState;
use crate::text::{decimal, push_decimal};

verus! {

broadcast use vstd::seq_lib::group_seq_properties;

/// Whether `p` is the length of the longest common prefix of `a` and `b`.
pub open spec fn is_common_prefix(a: Seq<Seq<char>>, b: Seq<Seq<char>>, p: int) -> bool {
    let n = if a.len() < b.len() { a.len() as int } else { b.len() as int };
    &&& 0 <= p <= n
    &&& forall|k: int| 0 <= k < p ==> a[k] == b[k]
    &&& p < n ==> a[p] != b[p]
}

/// The entry `k` places from the end.
pub open spec fn rev_at(a: Seq<Seq<char>>, k: int) -> Seq<char> {
    a[a.len() - 1 - k]
}

/// Whether `s` is the length of the longest common suffix of `a` and `b`
/// that does not reach into their first `bound`-complement.
pub open spec fn is_common_suffix(a: Seq<Seq<char>>, b: Seq<Seq<char>>, bound: int, s: int) -> bool {
    &&& 0 <= s <= bound
    &&& forall|k: int| 0 <= k < s ==> #[trigger] rev_at(a, k) == rev_at(b, k)
    &&& s < bound ==> rev_at(a, s) != rev_at(b, s)
}

/// `(start, end, inserted)` keeps the longest common prefix and (within the
/// rest) the longest common suffix of `a` and `b`, and replacing
/// `a[start..end]` with the `inserted` entries of `b` at `start` rebuilds `b`.
pub open spec fn is_structural_splice(a: Seq<Seq<char>>, b: Seq<Seq<char>>, r: (usize, usize, usize)) -> bool {
    let (start, end, inserted) = r;
    let n = if a.len() < b.len() { a.len() as int } else { b.len() as int };
    &&& is_common_prefix(a, b, start as int)
    &&& is_common_suffix(a, b, n - start, (a.len() - end) as int)
    &&& start <= end <= a.len()
    &&& start + inserted <= b.len()
    &&& inserted == b.len() - start - (a.len() - end)
    &&& b == a.subrange(0, start as int) + b.subrange(start as int, start + inserted) + a.subrange(
        end as int,
        a.len() as int,
    )
}

/// The one splice that turns the old identity sequence into the new one:
/// `(start, end, inserted)` replaces `old[start..end]` with `inserted` entries
/// of the new sequence starting at `start`.
pub fn structural_splice(old: &Vec<String>, new: &Vec<String>) -> (r: (usize, usize, usize))
    ensures
        is_structural_splice(views(old@), views(new@), r),
{
    let ghost a = views(old@);
    let ghost b = views(new@);
    let n: usize = if old.len() < new.len() { old.len() } else { new.len() };
    let mut prefix: usize = 0;
    while prefix < n && old[prefix] == new[prefix]
        invariant
            a == views(old@),
            b == views(new@),
            n <= old.len(),
            n <= new.len(),
            prefix <= n,
            forall|k: int| 0 <= k < prefix ==> a[k] == b[k],
        decreases n - prefix,
    {
        prefix = prefix + 1;
    }
    let max_suffix: usize = n - prefix;
    let mut suffix: usize = 0;
    while suffix < max_suffix && old[old.len() - 1 - suffix] == new[new.len() - 1 - suffix]
        invariant
            a == views(old@),
            b == views(new@),
            n <= old.len(),
            n <= new.len(),
            prefix <= n,
            max_suffix == n - prefix,
            suffix <= max_suffix,
            forall|k: int| 0 <= k < suffix ==> #[trigger] rev_at(a, k) == rev_at(b, k),
        decreases max_suffix - suffix,
    {
        suffix = suffix + 1;
    }
    let start = prefix;
    let end = old.len() - suffix;
    let inserted = new.len() - (prefix + suffix);
    assert(b =~= a.subrange(0, start as int) + b.subrange(start as int, start + inserted)
        + a.subrange(end as int, a.len() as int)) by {
        let rebuilt = a.subrange(0, start as int) + b.subrange(start as int, start + inserted)
            + a.subrange(end as int, a.len() as int);
        assert forall|k: int| 0 <= k < b.len() implies rebuilt[k] == b[k] by {
            if k >= start + inserted {
                let j = b.len() - 1 - k;
                assert(rev_at(a, j) == rev_at(b, j));
            }
        }
    }
    (start, end, inserted)
}

/// Whether every message identity in a snapshot is distinct.
pub fn message_ids_are_unique(ids: &Vec<String>) -> (r: bool)
    ensures
        r == views(ids@).no_duplicates(),
{
    ids_unique(ids)
}

/// The index of the last new identity that the old snapshot also held, or -1.
pub open spec fn last_retained(n: Seq<Seq<char>>, o: Seq<Seq<char>>) -> int
    decreases n.len(),
{
    if n.len() == 0 {
        -1
    } else if o.contains(n.last()) {
        n.len() - 1
    } else {
        last_retained(n.drop_last(), o)
    }
}

proof fn lemma_last_retained_suffix(n: Seq<Seq<char>>, o: Seq<Seq<char>>, i: int)
    requires
        0 <= i <= n.len(),
        forall|k: int| i <= k < n.len() ==> !o.contains(#[trigger] n[k]),
    ensures
        last_retained(n, o) == last_retained(n.take(i), o),
    decreases n.len() - i,
{
    if i < n.len() {
        assert(!o.contains(n[n.len() - 1]));
        assert(n.drop_last().take(i) =~= n.take(i));
        lemma_last_retained_suffix(n.drop_last(), o, i);
    } else {
        assert(n.take(i) =~= n);
    }
}

proof fn lemma_last_retained_bounds(n: Seq<Seq<char>>, o: Seq<Seq<char>>)
    ensures
        -1 <= last_retained(n, o) < n.len(),
        last_retained(n, o) >= 0 ==> o.contains(n[last_retained(n, o)]),
        forall|k: int| last_retained(n, o) < k < n.len() ==> !o.contains(#[trigger] n[k]),
    decreases n.len(),
{
    if n.len() > 0 && !o.contains(n.last()) {
        lemma_last_retained_bounds(n.drop_last(), o);
        assert forall|k: int| last_retained(n, o) < k < n.len() implies !o.contains(#[trigger] n[k]) by {
            if k < n.len() - 1 {
                assert(n[k] == n.drop_last()[k]);
            }
        }
    }
}

/// Finds the last retained index of `new` relative to `old`, as an option.
fn find_last_retained(old: &Vec<String>, new: &Vec<String>) -> (r: Option<usize>)
    ensures
        match r {
            Some(j) => j < new.len() && last_retained(views(new@), views(old@)) == j as int,
            None => last_retained(views(new@), views(old@)) == -1,
        },
{
    let ghost n = views(new@);
    let ghost o = views(old@);
    let mut i: usize = new.len();
    while i > 0
        invariant
            i <= new.len(),
            n == views(new@),
            o == views(old@),
            forall|k: int| i <= k < n.len() ==> !o.contains(#[trigger] n[k]),
        decreases i,
    {
        if contains_id(old, &new[i - 1]) {
            proof {
                lemma_last_retained_suffix(n, o, i as int);
                assert(n.take(i as int).last() == n[i - 1]);
            }
            return Some(i - 1);
        }
        i = i - 1;
    }
    proof {
        lemma_last_retained_suffix(n, o, 0);
    }
    None
}

/// One message as the transcript tracks it: its stable identity and the
/// lifecycle of its content.
pub struct TranscriptEntry {
    /// Stable application message identifier.
    pub id: String,
    /// Lifecycle of the message content.
    pub state: ProgressState,
}

/// The identities of a snapshot, in order.
pub open spec fn entry_ids(e: Seq<TranscriptEntry>) -> Seq<Seq<char>> {
    e.map_values(|x: TranscriptEntry| x.id@)
}

/// Whether `id` was held by a message whose content was streaming.
pub open spec fn was_streaming(ids: Seq<Seq<char>>, flags: Seq<bool>, id: Seq<char>) -> bool {
    exists|k: int| 0 <= k < ids.len() && ids[k] == id && flags[k]
}

/// The responses that finished with this snapshot: messages that were
/// streaming and now completed or failed, with whether they completed.
pub open spec fn settled_spec(
    ids: Seq<Seq<char>>,
    flags: Seq<bool>,
    incoming: Seq<TranscriptEntry>,
) -> Seq<(Seq<char>, bool)>
    decreases incoming.len(),
{
    if incoming.len() == 0 {
        seq![]
    } else {
        let rest = settled_spec(ids, flags, incoming.drop_last());
        let e = incoming.last();
        if was_streaming(ids, flags, e.id@) && (e.state is Complete || e.state is Failed) {
            rest.push((e.id@, e.state is Complete))
        } else {
            rest
        }
    }
}

/// Whether a non-empty snapshot shares no identity with a non-empty previous
/// one: a different conversation rather than a burst of arrivals.
pub open spec fn is_replacement_spec(o: Seq<Seq<char>>, n: Seq<Seq<char>>) -> bool {
    o.len() > 0 && n.len() > 0 && last_retained(n, o) == -1
}

/// The identities appended after the last message the old snapshot held.
pub open spec fn appended_spec(o: Seq<Seq<char>>, n: Seq<Seq<char>>) -> Seq<Seq<char>> {
    if is_replacement_spec(o, n) {
        seq![]
    } else {
        n.subrange(last_retained(n, o) + 1, n.len() as int)
    }
}

/// Whether the transcript returns to its tail after this snapshot.
pub open spec fn resets_to_tail(o: Seq<Seq<char>>, n: Seq<Seq<char>>, was_following: bool) -> bool {
    n.len() == 0 || was_following || is_replacement_spec(o, n)
}

/// A response that finished with the latest snapshot.
pub struct SettledMessage {
    /// Stable message identifier.
    pub message_id: String,
    /// Whether it completed rather than failed.
    pub succeeded: bool,
}

/// Pairs of identity and outcome.
pub open spec fn settled_view(v: Seq<SettledMessage>) -> Seq<(Seq<char>, bool)> {
    v.map_values(|m: SettledMessage| (m.message_id@, m.succeeded))
}

/// How the list should move after a snapshot is applied.
#[derive(Debug, Clone, Copy, PartialEq, Eq)]
pub enum ScrollIntent {
    /// Follow the tail again and scroll to it (an empty or different conversation).
    FollowTail,
    /// Scroll to the end; tail-following was already active.
    ToEnd,
    /// Keep the message that was first on screen first, at this new index.
    Restore {
        /// New index of the anchored message.
        item_ix: usize,
    },
    /// Leave the scroll position alone.
    Stay,
}

/// What applying a snapshot did, for the surface that renders it.
pub struct SnapshotUpdate {
    /// The one list splice: `(start, end, inserted)`.
    pub splice: (usize, usize, usize),
    /// Whether the snapshot is a different conversation.
    pub is_replacement: bool,
    /// Messages appended to a live transcript; they settle in and cue.
    pub arrived: Vec<String>,
    /// Responses that finished with this snapshot.
    pub settled: Vec<SettledMessage>,
    /// How the list moves.
    pub scroll: ScrollIntent,
    /// Whether a running jump-to-latest must be dropped.
    pub cancel_jump: bool,
    /// Whether the in-place editor belonged to a removed message.
    pub editor_closed: bool,
}

/// Recorded helpful / not-helpful feedback for one message.
pub struct FeedbackEntry {
    /// Stable message identifier.
    pub message_id: String,
    /// `true` for helpful.
    pub positive: bool,
}

/// Pairs of identity and rating.
pub open spec fn feedback_view(v: Seq<FeedbackEntry>) -> Seq<(Seq<char>, bool)> {
    v.map_values(|f: FeedbackEntry| (f.message_id@, f.positive))
}

/// The identities of recorded feedback.
pub open spec fn feedback_ids(v: Seq<FeedbackEntry>) -> Seq<Seq<char>> {
    v.map_values(|f: FeedbackEntry| f.message_id@)
}

/// Keeps the feedback pairs whose message is still present.
pub open spec fn feedback_kept(n: Seq<Seq<char>>) -> spec_fn((Seq<char>, bool)) -> bool {
    |p: (Seq<char>, bool)| n.contains(p.0)
}

/// Keeps an optional identity only while the snapshot still holds it.
pub open spec fn opt_kept(o: Option<Seq<char>>, n: Seq<Seq<char>>) -> Option<Seq<char>> {
    match o {
        Some(x) => if n.contains(x) { Some(x) } else { None },
        None => None,
    }
}

/// What applying a snapshot of `incoming` entries does to a transcript that
/// stood at `before`, given whether the list was following its tail and the
/// index of the message first on screen, with the update `u` it reports.
pub open spec fn snapshot_applied(
    before: Transcript,
    after: Transcript,
    incoming: Seq<TranscriptEntry>,
    was_following: bool,
    anchor: Option<usize>,
    u: SnapshotUpdate,
) -> bool {
    let o = before.message_ids();
    let n = entry_ids(incoming);
    let resets = resets_to_tail(o, n, was_following);
    let replacement = is_replacement_spec(o, n);
    &&& after.message_ids() == n
    &&& after.streaming_flags().len() == n.len()
    &&& forall|j: int|
        0 <= j < n.len() ==> #[trigger] after.streaming_flags()[j] == (
        incoming[j].state is Running)
    &&& is_structural_splice(o, n, u.splice)
    &&& u.is_replacement == replacement
    &&& views(u.arrived@) == (if o.len() == 0 {
        Seq::<Seq<char>>::empty()
    } else {
        appended_spec(o, n)
    })
    &&& settled_view(u.settled@) == settled_spec(o, before.streaming_flags(), incoming)
    &&& after.unread_ids() == (if resets {
        Seq::<Seq<char>>::empty()
    } else {
        before.unread_ids().filter(member_of(n)) + appended_spec(o, n)
    })
    &&& after.pinned() == (resets || before.pinned())
    &&& after.arrival_ids() == before.arrival_ids().filter(member_of(n)) + views(
        u.arrived@,
    )
    &&& after.feedback_pairs() == before.feedback_pairs().filter(feedback_kept(n))
    &&& after.copied_id() == opt_kept(before.copied_id(), n)
    &&& after.editing_id() == opt_kept(before.editing_id(), n)
    &&& u.editor_closed == (before.editing_id() is Some && after.editing_id() is None)
    &&& u.cancel_jump == (n.len() == 0 || replacement)
    &&& (n.len() == 0 || replacement) ==> u.scroll is FollowTail
    &&& (n.len() > 0 && !replacement && was_following) ==> u.scroll is ToEnd
    &&& !resets ==> match u.scroll {
        ScrollIntent::Restore { item_ix } => anchor matches Some(a) && a < o.len()
            && item_ix < n.len() && n[item_ix as int] == o[a as int],
        ScrollIntent::Stay => !(anchor matches Some(a) && a < o.len() && n.contains(
            o[a as int],
        )),
        _ => false,
    }
}

/// The state a chat transcript retains across controlled snapshots: which
/// messages exist, which are streaming, which arrived unread, and transient
/// per-message state (feedback, copy confirmation, the open editor).
pub struct Transcript {
    ids: Vec<String>,
    streaming: Vec<bool>,
    unread: Vec<String>,
    arrivals: Vec<String>,
    pinned_to_bottom: bool,
    feedback: Vec<FeedbackEntry>,
    copied: Option<String>,
    editing: Option<String>,
}

fn collect_ids(incoming: &Vec<TranscriptEntry>) -> (r: (Vec<String>, Vec<bool>))
    ensures
        views(r.0@) == entry_ids(incoming@),
        r.1@.len() == incoming@.len(),
        forall|j: int| 0 <= j < incoming@.len() ==> r.1@[j] == (incoming@[j].state is Running),
{
    let mut ids: Vec<String> = Vec::new();
    let mut flags: Vec<bool> = Vec::new();
    let mut j: usize = 0;
    while j < incoming.len()
        invariant
            j <= incoming.len(),
            views(ids@) == entry_ids(incoming@).take(j as int),
            flags@.len() == j,
            forall|k: int| 0 <= k < j ==> flags@[k] == (incoming@[k].state is Running),
        decreases incoming.len() - j,
    {
        let ghost before = ids@;
        ids.push(incoming[j].id.clone());
        flags.push(incoming[j].state.is_running());
        proof {
            lemma_views_push(before, incoming@[j as int].id);
            assert(entry_ids(incoming@).take(j + 1) =~= entry_ids(incoming@).take(j as int).push(
                incoming@[j as int].id@,
            ));
        }
        j = j + 1;
    }
    assert(entry_ids(incoming@).take(j as int) =~= entry_ids(incoming@));
    (ids, flags)
}

fn settled_between(
    ids: &Vec<String>,
    flags: &Vec<bool>,
    incoming: &Vec<TranscriptEntry>,
) -> (r: Vec<SettledMessage>)
    requires
        views(ids@).no_duplicates(),
        flags@.len() == ids@.len(),
    ensures
        settled_view(r@) == settled_spec(views(ids@), flags@, incoming@),
{
    let mut r: Vec<SettledMessage> = Vec::new();
    let mut j: usize = 0;
    while j < incoming.len()
        invariant
            j <= incoming.len(),
            views(ids@).no_duplicates(),
            flags@.len() == ids@.len(),
            settled_view(r@) == settled_spec(views(ids@), flags@, incoming@.take(j as int)),
        decreases incoming.len() - j,
    {
        let e = &incoming[j];
        let pos = position_of(ids, &e.id);
        let streaming_before = match pos {
            Some(k) => flags[k],
            None => false,
        };
        proof {
            assert(incoming@.take(j + 1).drop_last() =~= incoming@.take(j as int));
            assert(incoming@.take(j + 1).last() == incoming@[j as int]);
            let o = views(ids@);
            match pos {
                Some(p) => {
                    assert(o[p as int] == e.id@);
                    if was_streaming(o, flags@, e.id@) {
                        let k = choose|k: int| 0 <= k < o.len() && o[k] == e.id@ && flags@[k];
                        assert(k == p);
                    }
                },
                None => {
                    if was_streaming(o, flags@, e.id@) {
                        let k = choose|k: int| 0 <= k < o.len() && o[k] == e.id@ && flags@[k];
                        assert(o.contains(e.id@));
                    }
                },
            }
        }
        if streaming_before && e.state.is_settled() {
            let ghost before = r@;
            r.push(SettledMessage { message_id: e.id.clone(), succeeded: e.state.is_complete() });
            assert(settled_view(r@) =~= settled_view(before).push((e.id@, e.state is Complete)));
        }
        j = j + 1;
    }
    assert(incoming@.take(j as int) =~= incoming@);
    r
}

proof fn lemma_appended_fresh(o: Seq<Seq<char>>, n: Seq<Seq<char>>)
    requires
        n.no_duplicates(),
    ensures
        appended_spec(o, n).no_duplicates(),
        forall|x: Seq<char>| appended_spec(o, n).contains(x) ==> n.contains(x) && !o.contains(x),
{
    lemma_last_retained_bounds(n, o);
    let a = appended_spec(o, n);
    if !is_replacement_spec(o, n) {
        let start = last_retained(n, o) + 1;
        assert forall|i: int, j: int| 0 <= i < a.len() && 0 <= j < a.len() && i != j implies a[i] != a[j] by {
            assert(a[i] == n[start + i] && a[j] == n[start + j]);
        }
        assert forall|x: Seq<char>| a.contains(x) implies n.contains(x) && !o.contains(x) by {
            let i = choose|i: int| 0 <= i < a.len() && a[i] == x;
            assert(a[i] == n[start + i]);
        }
    }
}

fn copy_from(v: &Vec<String>, from: usize) -> (r: Vec<String>)
    requires
        from <= v.len(),
    ensures
        views(r@) == views(v@).subrange(from as int, v.len() as int),
{
    let mut r: Vec<String> = Vec::new();
    let mut i: usize = from;
    while i < v.len()
        invariant
            from <= i <= v.len(),
            views(r@) == views(v@).subrange(from as int, i as int),
        decreases v.len() - i,
    {
        let ghost before = r@;
        r.push(v[i].clone());
        proof {
            lemma_views_push(before, v@[i as int]);
            assert(views(v@).subrange(from as int, i + 1) =~= views(v@).subrange(from as int, i as int).push(v@[i as int]@));
        }
        i = i + 1;
    }
    r
}

fn extend_ids(dst: &mut Vec<String>, src: &Vec<String>)
    ensures
        views(final(dst)@) == views(old(dst)@) + views(src@),
{
    let ghost start = views(dst@);
    let mut i: usize = 0;
    while i < src.len()
        invariant
            i <= src.len(),
            views(dst@) == start + views(src@).take(i as int),
        decreases src.len() - i,
    {
        let ghost before = dst@;
        dst.push(src[i].clone());
        proof {
            lemma_views_push(before, src@[i as int]);
            assert(start + views(src@).take(i + 1) =~= (start + views(src@).take(i as int)).push(src@[i as int]@));
        }
        i = i + 1;
    }
    assert(views(src@).take(i as int) =~= views(src@));
}

fn retain_feedback(fb: &Vec<FeedbackEntry>, keep: &Vec<String>) -> (r: Vec<FeedbackEntry>)
    ensures
        feedback_view(r@) == feedback_view(fb@).filter(feedback_kept(views(keep@))),
        feedback_ids(r@) == feedback_ids(fb@).filter(member_of(views(keep@))),
{
    let mut r: Vec<FeedbackEntry> = Vec::new();
    let mut i: usize = 0;
    while i < fb.len()
        invariant
            i <= fb.len(),
            feedback_view(r@) == feedback_view(fb@).take(i as int).filter(feedback_kept(views(keep@))),
            feedback_ids(r@) == feedback_ids(fb@).take(i as int).filter(member_of(views(keep@))),
        decreases fb.len() - i,
    {
        let ghost before = r@;
        let e = &fb[i];
        proof {
            assert(feedback_view(fb@).take(i + 1) =~= feedback_view(fb@).take(i as int).push((e.message_id@, e.positive)));
            assert(feedback_ids(fb@).take(i + 1) =~= feedback_ids(fb@).take(i as int).push(e.message_id@));
            feedback_view(fb@).take(i as int).lemma_filter_push((e.message_id@, e.positive), feedback_kept(views(keep@)));
            feedback_ids(fb@).take(i as int).lemma_filter_push(e.message_id@, member_of(views(keep@)));
        }
        if contains_id(keep, &e.message_id) {
            r.push(FeedbackEntry { message_id: e.message_id.clone(), positive: e.positive });
            assert(feedback_view(r@) =~= feedback_view(before).push((e.message_id@, e.positive)));
            assert(feedback_ids(r@) =~= feedback_ids(before).push(e.message_id@));
        }
        i = i + 1;
    }
    assert(feedback_view(fb@).take(i as int) =~= feedback_view(fb@));
    assert(feedback_ids(fb@).take(i as int) =~= feedback_ids(fb@));
    r
}

fn keep_if_present(o: &Option<String>, keep: &Vec<String>) -> (r: Option<String>)
    ensures
        opt_view(r) == opt_kept(opt_view(*o), views(keep@)),
{
    match o {
        Some(x) => if contains_id(keep, x) {
            Some(x.clone())
        } else {
            None
        },
        None => None,
    }
}

impl Transcript {
    /// Identities of the current snapshot.
    pub closed spec fn message_ids(self) -> Seq<Seq<char>> {
        views(self.ids@)
    }

    /// Per message, whether its content is streaming.
    pub closed spec fn streaming_flags(self) -> Seq<bool> {
        self.streaming@
    }

    /// Messages received while the transcript was not following its tail.
    pub closed spec fn unread_ids(self) -> Seq<Seq<char>> {
        views(self.unread@)
    }

    /// Messages appended to the live transcript, still settling in.
    pub closed spec fn arrival_ids(self) -> Seq<Seq<char>> {
        views(self.arrivals@)
    }

    /// Whether the transcript believes it rests at its tail.
    pub closed spec fn pinned(self) -> bool {
        self.pinned_to_bottom
    }

    /// Recorded feedback, by message.
    pub closed spec fn feedback_pairs(self) -> Seq<(Seq<char>, bool)> {
        feedback_view(self.feedback@)
    }

    /// The message whose copy confirmation is showing.
    pub closed spec fn copied_id(self) -> Option<Seq<char>> {
        opt_view(self.copied)
    }

    /// The message being edited in place.
    pub closed spec fn editing_id(self) -> Option<Seq<char>> {
        opt_view(self.editing)
    }

    /// Well-formedness: identities are unique, and every piece of per-message
    /// state refers to a message the snapshot holds.
    pub closed spec fn wf(self) -> bool {
        let ids = views(self.ids@);
        &&& ids.no_duplicates()
        &&& self.streaming@.len() == self.ids@.len()
        &&& views(self.unread@).no_duplicates()
        &&& forall|x: Seq<char>| views(self.unread@).contains(x) ==> ids.contains(x)
        &&& views(self.arrivals@).no_duplicates()
        &&& forall|x: Seq<char>| views(self.arrivals@).contains(x) ==> ids.contains(x)
        &&& feedback_ids(self.feedback@).no_duplicates()
        &&& forall|x: Seq<char>| feedback_ids(self.feedback@).contains(x) ==> ids.contains(x)
        &&& forall|x: Seq<char>| opt_view(self.copied) == Some(x) ==> ids.contains(x)
        &&& forall|x: Seq<char>| opt_view(self.editing) == Some(x) ==> ids.contains(x)
    }

    /// An empty transcript resting at its tail.
    pub fn new() -> (r: Self)
        ensures
            r.wf(),
            r.message_ids() == Seq::<Seq<char>>::empty(),
            r.streaming_flags() == Seq::<bool>::empty(),
            r.unread_ids() == Seq::<Seq<char>>::empty(),
            r.arrival_ids() == Seq::<Seq<char>>::empty(),
            r.feedback_pairs() == Seq::<(Seq<char>, bool)>::empty(),
            r.copied_id() is None,
            r.editing_id() is None,
            r.pinned(),
    {
        let r = Transcript {
            ids: Vec::new(),
            streaming: Vec::new(),
            unread: Vec::new(),
            arrivals: Vec::new(),
            pinned_to_bottom: true,
            feedback: Vec::new(),
            copied: None,
            editing: None,
        };
        assert(views(r.ids@) =~= Seq::<Seq<char>>::empty());
        assert(views(r.unread@) =~= Seq::<Seq<char>>::empty());
        assert(views(r.arrivals@) =~= Seq::<Seq<char>>::empty());
        assert(feedback_ids(r.feedback@) =~= Seq::<Seq<char>>::empty());
        assert(feedback_view(r.feedback@) =~= Seq::<(Seq<char>, bool)>::empty());
        r
    }

    /// Replaces the controlled message snapshot.
    ///
    /// A snapshot that repeats an identity is ignored, so recycled rows can
    /// never alias one another. Otherwise the identity list, streaming flags,
    /// unread set, arrivals, and per-message state follow the new snapshot:
    /// state for a removed message is dropped; messages appended after the
    /// last retained one are unread unless the transcript was following its
    /// tail; a snapshot that shares no identity with a non-empty previous one
    /// is a different conversation and reopens at its end with nothing
    /// unread or arriving.
    #[verifier::rlimit(50)]
    #[verifier::spinoff_prover]
    pub fn set_messages(
        &mut self,
        incoming: &Vec<TranscriptEntry>,
        was_following: bool,
        anchor: Option<usize>,
    ) -> (r: Option<SnapshotUpdate>)
        requires
            old(self).wf(),
        ensures
            final(self).wf(),
            !entry_ids(incoming@).no_duplicates() ==> r is None && *final(self) == *old(self),
            entry_ids(incoming@).no_duplicates() ==> r is Some,
            r matches Some(u) ==> snapshot_applied(*old(self), *final(self), incoming@, was_following, anchor, u),
    {
        let (new_ids, new_flags) = collect_ids(incoming);
        if !message_ids_are_unique(&new_ids) {
            return None;
        }
        let ghost o = views(self.ids@);
        let ghost n = views(new_ids@);
        let ghost old_self = *self;
        proof {
            lemma_appended_fresh(o, n);
            lemma_last_retained_bounds(n, o);
        }
        let last = find_last_retained(&self.ids, &new_ids);
        let is_replacement = self.ids.len() > 0 && new_ids.len() > 0 && last.is_none();
        let appended = if is_replacement {
            Vec::new()
        } else {
            let from = match last {
                Some(j) => j + 1,
                None => 0,
            };
            copy_from(&new_ids, from)
        };
        assert(views(appended@) =~= appended_spec(o, n));
        let arrived = if self.ids.len() == 0 {
            Vec::new()
        } else {
            copy_from(&appended, 0)
        };
        assert(views(arrived@) =~= (if o.len() == 0 {
            Seq::<Seq<char>>::empty()
        } else {
            appended_spec(o, n)
        }));
        let settled = settled_between(&self.ids, &self.streaming, incoming);
        let splice = structural_splice(&self.ids, &new_ids);

        let anchor_target = match anchor {
            Some(a) => if a < self.ids.len() {
                position_of(&new_ids, &self.ids[a])
            } else {
                None
            },
            None => None,
        };

        let mut unread = retain_ids(&self.unread, &new_ids);
        let ghost unread_filtered = views(unread@);
        let feedback = retain_feedback(&self.feedback, &new_ids);
        let copied = keep_if_present(&self.copied, &new_ids);
        let editing = keep_if_present(&self.editing, &new_ids);
        let editor_closed = self.editing.is_some() && editing.is_none();
        let mut arrivals = retain_ids(&self.arrivals, &new_ids);
        let ghost arrivals_filtered = views(arrivals@);
        extend_ids(&mut arrivals, &arrived);

        let resets = new_ids.len() == 0 || was_following || is_replacement;
        let scroll = if new_ids.len() == 0 || is_replacement {
            ScrollIntent::FollowTail
        } else if was_following {
            ScrollIntent::ToEnd
        } else {
            match anchor_target {
                Some(item_ix) => ScrollIntent::Restore { item_ix },
                None => ScrollIntent::Stay,
            }
        };
        if resets {
            unread = Vec::new();
            assert(views(unread@) =~= Seq::<Seq<char>>::empty());
        } else {
            extend_ids(&mut unread, &appended);
        }
        proof {
            lemma_filter_no_duplicates(views(old_self.unread@), member_of(n));
            lemma_filter_no_duplicates(views(old_self.arrivals@), member_of(n));
            lemma_filter_no_duplicates(feedback_ids(old_self.feedback@), member_of(n));
            assert forall|x: Seq<char>| unread_filtered.contains(x) implies n.contains(x) && o.contains(x) by {
                lemma_filter_subset(views(old_self.unread@), member_of(n), x);
            }
            assert forall|x: Seq<char>| arrivals_filtered.contains(x) implies n.contains(x) && o.contains(x) by {
                lemma_filter_subset(views(old_self.arrivals@), member_of(n), x);
            }
            assert forall|x: Seq<char>| feedback_ids(feedback@).contains(x) implies n.contains(x) by {
                lemma_filter_subset(feedback_ids(old_self.feedback@), member_of(n), x);
            }
            if !resets {
                vstd::seq_lib::lemma_no_dup_in_concat(unread_filtered, appended_spec(o, n));
            }
            vstd::seq_lib::lemma_no_dup_in_concat(arrivals_filtered, views(arrived@));
            match anchor {
                Some(a) => {
                    if a < old_self.ids@.len() {
                        assert(o[a as int] == old_self.ids@[a as int]@);
                    }
                },
                None => {},
            }
        }
        self.ids = new_ids;
        self.streaming = new_flags;
        self.unread = unread;
        self.arrivals = arrivals;
        if resets {
            self.pinned_to_bottom = true;
        }
        self.feedback = feedback;
        self.copied = copied;
        self.editing = editing;
        Some(SnapshotUpdate {
            splice,
            is_replacement,
            arrived,
            settled,
            scroll,
            cancel_jump: self.ids.len() == 0 || is_replacement,
            editor_closed,
        })
    }

    /// Whether the transcript rests at its tail: the list follows its tail
    /// and the transcript has not been scrolled away from it.
    pub fn is_pinned_to_bottom(&self, list_following_tail: bool) -> (r: bool)
        ensures
            r == (list_following_tail && self.pinned()),
    {
        list_following_tail && self.pinned_to_bottom
    }

    /// Records a scroll: following the tail pins the transcript and reads
    /// every unread message.
    pub fn on_scroll(&mut self, following_tail: bool)
        requires
            old(self).wf(),
        ensures
            final(self).wf(),
            final(self).pinned() == following_tail,
            final(self).unread_ids() == (if following_tail {
                Seq::<Seq<char>>::empty()
            } else {
                old(self).unread_ids()
            }),
            final(self).message_ids() == old(self).message_ids(),
            final(self).arrival_ids() == old(self).arrival_ids(),
            final(self).feedback_pairs() == old(self).feedback_pairs(),
            final(self).copied_id() == old(self).copied_id(),
            final(self).editing_id() == old(self).editing_id(),
            final(self).streaming_flags() == old(self).streaming_flags(),
    {
        self.pinned_to_bottom = following_tail;
        if following_tail {
            self.unread = Vec::new();
            assert(views(self.unread@) =~= Seq::<Seq<char>>::empty());
        }
    }

    /// Resumes tail-following: every unread message is read.
    pub fn scroll_to_latest(&mut self)
        requires
            old(self).wf(),
        ensures
            final(self).wf(),
            final(self).unread_ids() == Seq::<Seq<char>>::empty(),
            final(self).pinned() == old(self).pinned(),
            final(self).message_ids() == old(self).message_ids(),
            final(self).arrival_ids() == old(self).arrival_ids(),
            final(self).feedback_pairs() == old(self).feedback_pairs(),
            final(self).copied_id() == old(self).copied_id(),
            final(self).editing_id() == old(self).editing_id(),
            final(self).streaming_flags() == old(self).streaming_flags(),
    {
        self.unread = Vec::new();
        assert(views(self.unread@) =~= Seq::<Seq<char>>::empty());
    }

    /// Marks that a jump has come to rest at the tail, or left it.
    pub fn set_pinned(&mut self, pinned: bool)
        requires
            old(self).wf(),
        ensures
            final(self).wf(),
            final(self).pinned() == pinned,
            final(self).unread_ids() == old(self).unread_ids(),
            final(self).message_ids() == old(self).message_ids(),
            final(self).arrival_ids() == old(self).arrival_ids(),
            final(self).feedback_pairs() == old(self).feedback_pairs(),
            final(self).copied_id() == old(self).copied_id(),
            final(self).editing_id() == old(self).editing_id(),
            final(self).streaming_flags() == old(self).streaming_flags(),
    {
        self.pinned_to_bottom = pinned;
    }

    /// Shows the copy confirmation on a message the snapshot holds.
    /// Returns whether the message exists (only then is anything copied).
    pub fn mark_copied(&mut self, message_id: &String) -> (r: bool)
        requires
            old(self).wf(),
        ensures
            final(self).wf(),
            r == old(self).message_ids().contains(message_id@),
            final(self).copied_id() == (if r {
                Some(message_id@)
            } else {
                old(self).copied_id()
            }),
            final(self).unread_ids() == old(self).unread_ids(),
            final(self).message_ids() == old(self).message_ids(),
            final(self).feedback_pairs() == old(self).feedback_pairs(),
            final(self).editing_id() == old(self).editing_id(),
            final(self).pinned() == old(self).pinned(),
            final(self).arrival_ids() == old(self).arrival_ids(),
            final(self).streaming_flags() == old(self).streaming_flags(),
    {
        if contains_id(&self.ids, message_id) {
            self.copied = Some(message_id.clone());
            true
        } else {
            false
        }
    }

    /// Hides the copy confirmation once its time is up.
    pub fn clear_copied(&mut self)
        requires
            old(self).wf(),
        ensures
            final(self).wf(),
            final(self).copied_id() is None,
            final(self).unread_ids() == old(self).unread_ids(),
            final(self).message_ids() == old(self).message_ids(),
            final(self).feedback_pairs() == old(self).feedback_pairs(),
            final(self).editing_id() == old(self).editing_id(),
            final(self).pinned() == old(self).pinned(),
            final(self).arrival_ids() == old(self).arrival_ids(),
            final(self).streaming_flags() == old(self).streaming_flags(),
    {
        self.copied = None;
    }

    /// The message whose copy confirmation is showing.
    pub fn copied_message(&self) -> (r: Option<&String>)
        ensures
            match r {
                Some(x) => self.copied_id() == Some(x@),
                None => self.copied_id() is None,
            },
    {
        self.copied.as_ref()
    }

    /// Records a helpful / not-helpful rating for a message the snapshot
    /// holds, replacing an earlier rating. Returns whether it was recorded.
    pub fn submit_feedback(&mut self, message_id: &String, positive: bool) -> (r: bool)
        requires
            old(self).wf(),
        ensures
            final(self).wf(),
            r == old(self).message_ids().contains(message_id@),
            !r ==> final(self).feedback_pairs() == old(self).feedback_pairs(),
            r ==> final(self).feedback_pairs().contains((message_id@, positive)),
            r ==> forall|p: (Seq<char>, bool)|
                p.0 != message_id@ ==> (final(self).feedback_pairs().contains(p)
                    == old(self).feedback_pairs().contains(p)),
            r ==> !final(self).feedback_pairs().contains((message_id@, !positive)),
            final(self).unread_ids() == old(self).unread_ids(),
            final(self).message_ids() == old(self).message_ids(),
            final(self).copied_id() == old(self).copied_id(),
            final(self).editing_id() == old(self).editing_id(),
            final(self).pinned() == old(self).pinned(),
            final(self).arrival_ids() == old(self).arrival_ids(),
            final(self).streaming_flags() == old(self).streaming_flags(),
    {
        if !contains_id(&self.ids, message_id) {
            return false;
        }
        let ghost before = self.feedback@;
        let mut i: usize = 0;
        while i < self.feedback.len()
            invariant
                i <= self.feedback@.len(),
                *self == *old(self),
                self.feedback@ == before,
                old(self).wf(),
                old(self).message_ids().contains(message_id@),
                forall|k: int| 0 <= k < i ==> self.feedback@[k].message_id@ != message_id@,
            decreases self.feedback@.len() - i,
        {
            if self.feedback[i].message_id == *message_id {
                let ghost fv = feedback_view(before);
                self.feedback.set(i, FeedbackEntry { message_id: message_id.clone(), positive });
                proof {
                    assert(feedback_ids(self.feedback@) =~= feedback_ids(before));
                    assert(feedback_view(self.feedback@) =~= fv.update(i as int, (message_id@, positive)));
                    assert(feedback_view(self.feedback@)[i as int] == (message_id@, positive));
                    assert forall|p: (Seq<char>, bool)| p.0 != message_id@ implies (feedback_view(
                        self.feedback@,
                    ).contains(p) == fv.contains(p)) by {
                        if fv.contains(p) {
                            let k = choose|k: int| 0 <= k < fv.len() && fv[k] == p;
                            assert(feedback_view(self.feedback@)[k] == p);
                        }
                        if feedback_view(self.feedback@).contains(p) {
                            let k = choose|k: int| 0 <= k < fv.len() && feedback_view(self.feedback@)[k] == p;
                            assert(fv[k] == p);
                        }
                    }
                    if feedback_view(self.feedback@).contains((message_id@, !positive)) {
                        let k = choose|k: int| 0 <= k < fv.len() && feedback_view(self.feedback@)[k] == (message_id@, !positive);
                        assert(feedback_ids(self.feedback@)[k] == feedback_ids(self.feedback@)[i as int]);
                    }
                }
                return true;
            }
            i = i + 1;
        }
        let ghost fv = feedback_view(before);
        self.feedback.push(FeedbackEntry { message_id: message_id.clone(), positive });
        proof {
            assert(feedback_view(self.feedback@) =~= fv.push((message_id@, positive)));
            assert(feedback_ids(self.feedback@) =~= feedback_ids(before).push(message_id@));
            assert(feedback_view(self.feedback@)[fv.len() as int] == (message_id@, positive));
            assert forall|p: (Seq<char>, bool)| p.0 != message_id@ implies (feedback_view(
                self.feedback@,
            ).contains(p) == fv.contains(p)) by {
                if fv.contains(p) {
                    let k = choose|k: int| 0 <= k < fv.len() && fv[k] == p;
                    assert(feedback_view(self.feedback@)[k] == p);
                }
            }
            if feedback_view(self.feedback@).contains((message_id@, !positive)) {
                let k = choose|k: int| 0 <= k < feedback_view(self.feedback@).len() && feedback_view(self.feedback@)[k] == (message_id@, !positive);
                assert(k < fv.len());
                assert(before[k].message_id@ == message_id@);
            }
            assert forall|a: int, b: int|
                0 <= a < feedback_ids(self.feedback@).len() && 0 <= b < feedback_ids(self.feedback@).len() && a != b
                implies feedback_ids(self.feedback@)[a] != feedback_ids(self.feedback@)[b] by {
                if a < before.len() && b < before.len() {
                } else if a == before.len() {
                    assert(before[b].message_id@ != message_id@);
                } else {
                    assert(before[a].message_id@ != message_id@);
                }
            }
        }
        true
    }

    /// The rating recorded for a message, if any.
    pub fn feedback_for(&self, message_id: &String) -> (r: Option<bool>)
        requires
            self.wf(),
        ensures
            match r {
                Some(v) => self.feedback_pairs().contains((message_id@, v)),
                None => forall|v: bool| !self.feedback_pairs().contains((message_id@, v)),
            },
    {
        let mut i: usize = 0;
        while i < self.feedback.len()
            invariant
                i <= self.feedback@.len(),
                forall|k: int| 0 <= k < i ==> self.feedback@[k].message_id@ != message_id@,
            decreases self.feedback@.len() - i,
        {
            if self.feedback[i].message_id == *message_id {
                assert(feedback_view(self.feedback@)[i as int] == (message_id@, self.feedback@[i as int].positive));
                return Some(self.feedback[i].positive);
            }
            i = i + 1;
        }
        assert forall|v: bool| !self.feedback_pairs().contains((message_id@, v)) by {
            if self.feedback_pairs().contains((message_id@, v)) {
                let k = choose|k: int| 0 <= k < self.feedback_pairs().len() && self.feedback_pairs()[k] == (message_id@, v);
                assert(self.feedback@[k].message_id@ == message_id@);
            }
        }
        None
    }

    /// Opens the in-place editor on a message the snapshot holds. Returns
    /// whether a new edit session began (not when it was already open there).
    pub fn begin_edit(&mut self, message_id: &String) -> (r: bool)
        requires
            old(self).wf(),
        ensures
            final(self).wf(),
            r == (old(self).message_ids().contains(message_id@) && old(self).editing_id() != Some(
                message_id@,
            )),
            final(self).editing_id() == (if r {
                Some(message_id@)
            } else {
                old(self).editing_id()
            }),
            final(self).unread_ids() == old(self).unread_ids(),
            final(self).message_ids() == old(self).message_ids(),
            final(self).feedback_pairs() == old(self).feedback_pairs(),
            final(self).copied_id() == old(self).copied_id(),
            final(self).pinned() == old(self).pinned(),
            final(self).arrival_ids() == old(self).arrival_ids(),
            final(self).streaming_flags() == old(self).streaming_flags(),
    {
        if !contains_id(&self.ids, message_id) {
            return false;
        }
        let already = match &self.editing {
            Some(current) => *current == *message_id,
            None => false,
        };
        if already {
            return false;
        }
        self.editing = Some(message_id.clone());
        true
    }

    /// Closes the in-place editor, returning the message it was editing.
    pub fn end_edit(&mut self) -> (r: Option<String>)
        requires
            old(self).wf(),
        ensures
            final(self).wf(),
            opt_view(r) == old(self).editing_id(),
            final(self).editing_id() is None,
            final(self).unread_ids() == old(self).unread_ids(),
            final(self).message_ids() == old(self).message_ids(),
            final(self).feedback_pairs() == old(self).feedback_pairs(),
            final(self).copied_id() == old(self).copied_id(),
            final(self).pinned() == old(self).pinned(),
            final(self).arrival_ids() == old(self).arrival_ids(),
            final(self).streaming_flags() == old(self).streaming_flags(),
    {
        self.editing.take()
    }

    /// The message being edited in place, if any.
    pub fn editing_message(&self) -> (r: Option<&String>)
        ensures
            match r {
                Some(x) => self.editing_id() == Some(x@),
                None => self.editing_id() is None,
            },
    {
        self.editing.as_ref()
    }

    /// Whether a message was appended to the live transcript and should
    /// settle in with a reveal.
    pub fn is_arrival(&self, message_id: &String) -> (r: bool)
        ensures
            r == self.arrival_ids().contains(message_id@),
    {
        contains_id(&self.arrivals, message_id)
    }

    /// The number of messages in the snapshot.
    pub fn len(&self) -> (r: usize)
        requires
            self.wf(),
        ensures
            r == self.message_ids().len(),
    {
        self.ids.len()
    }

    /// The number of messages received while the transcript was offscreen.
    pub fn unread_count(&self) -> (r: usize)
        ensures
            r == self.unread_ids().len(),
    {
        self.unread.len()
    }
}

/// The accessible name of the jump-to-latest control.
pub open spec fn jump_label_spec(unread: nat) -> Seq<char> {
    "Jump to latest, "@ + decimal(unread) + " unread message"@ + (if unread == 1 {
        ""@
    } else {
        "s"@
    })
}

/// The accessible name of the jump-to-latest control:
/// `Jump to latest, 2 unread messages`.
pub fn jump_label(unread: usize) -> (r: String)
    ensures
        r@ == jump_label_spec(unread as nat),
{
    let mut label = "Jump to latest, ".to_owned();
    push_decimal(&mut label, unread as u64);
    label.append(" unread message");
    if unread != 1 {
        label.append("s");
    } else {
        label.append("");
    }
    label
}

/// Whether the jump-to-latest control is offered: there is something unread
/// and the list is not following its tail.
pub fn shows_jump(unread: usize, list_following_tail: bool) -> (r: bool)
    ensures
        r == (unread > 0 && !list_following_tail),
{
    unread > 0 && !list_following_tail
}

/// Per-message state never outlives its message: everything unread, arriving,
/// rated, showing a copy confirmation, or being edited is a message of the
/// current snapshot, and no identity repeats.
pub proof fn lemma_message_state_belongs_to_messages(t: Transcript)
    requires
        t.wf(),
    ensures
        t.message_ids().no_duplicates(),
        t.unread_ids().no_duplicates(),
        forall|x: Seq<char>| t.unread_ids().contains(x) ==> t.message_ids().contains(x),
        forall|x: Seq<char>| t.arrival_ids().contains(x) ==> t.message_ids().contains(x),
        forall|p: (Seq<char>, bool)| t.feedback_pairs().contains(p) ==> t.message_ids().contains(p.0),
        forall|x: Seq<char>| t.copied_id() == Some(x) ==> t.message_ids().contains(x),
        forall|x: Seq<char>| t.editing_id() == Some(x) ==> t.message_ids().contains(x),
{
    assert forall|p: (Seq<char>, bool)| t.feedback_pairs().contains(p) implies t.message_ids().contains(p.0) by {
        let k = choose|k: int| 0 <= k < t.feedback_pairs().len() && t.feedback_pairs()[k] == p;
        assert(feedback_ids(t.feedback@)[k] == p.0);
    }
}

proof fn lemma_filter_all(s: Seq<Seq<char>>, p: spec_fn(Seq<char>) -> bool)
    requires
        forall|i: int| 0 <= i < s.len() ==> p(#[trigger] s[i]),
    ensures
        s.filter(p) == s,
    decreases s.len(),
{
    reveal(Seq::filter);
    if s.len() > 0 {
        lemma_filter_all(s.drop_last(), p);
        assert(s.drop_last().push(s.last()) =~= s);
    }
}

/// A snapshot with the same identities as the current one is not a new
/// conversation, appends nothing, and keeps every unread message unread.
pub proof fn lemma_same_identities_keep_unread(t: Transcript)
    requires
        t.wf(),
    ensures
        !is_replacement_spec(t.message_ids(), t.message_ids()),
        appended_spec(t.message_ids(), t.message_ids()) == Seq::<Seq<char>>::empty(),
        t.unread_ids().filter(member_of(t.message_ids())) == t.unread_ids(),
        t.arrival_ids().filter(member_of(t.message_ids())) == t.arrival_ids(),
{
    let o = t.message_ids();
    if o.len() > 0 {
        assert(o.contains(o.last()));
        assert(last_retained(o, o) == o.len() - 1);
        assert(o.subrange(o.len() as int, o.len() as int) =~= Seq::<Seq<char>>::empty());
    } else {
        assert(o.subrange(0, 0) =~= Seq::<Seq<char>>::empty());
    }
    assert forall|i: int| 0 <= i < t.unread_ids().len() implies member_of(o)(#[trigger] t.unread_ids()[i]) by {
        assert(t.unread_ids().contains(t.unread_ids()[i]));
    }
    lemma_filter_all(t.unread_ids(), member_of(o));
    assert forall|i: int| 0 <= i < t.arrival_ids().len() implies member_of(o)(#[trigger] t.arrival_ids()[i]) by {
        assert(t.arrival_ids().contains(t.arrival_ids()[i]));
    }
    lemma_filter_all(t.arrival_ids(), member_of(o));
}

/// A non-empty snapshot that shares no identity with a non-empty previous one
/// is a different conversation: nothing in it counts as appended.
pub proof fn lemma_disjoint_snapshot_is_replacement(o: Seq<Seq<char>>, n: Seq<Seq<char>>)
    requires
        o.len() > 0,
        n.len() > 0,
        forall|x: Seq<char>| n.contains(x) ==> !o.contains(x),
    ensures
        is_replacement_spec(o, n),
        appended_spec(o, n) == Seq::<Seq<char>>::empty(),
{
    lemma_last_retained_bounds(n, o);
    if last_retained(n, o) >= 0 {
        assert(n.contains(n[last_retained(n, o)]));
    }
}

} // verus!
