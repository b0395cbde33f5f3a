//! Bounded, feature-oriented comparison values, their structural validation,
//! and the selection and keyboard focus a comparison table keeps.

use vstd::prelude::*;
use crate::ids::{views, contains_id, opt_view};
use crate::stream::ProgressState;
use crate::focus::{enabled_id, keep_focus, kept_focus_spec, move_focus, moved_spec, lemma_enabled_positions};

verus! {

broadcast use vstd::seq_lib::group_seq_properties;

/// Maximum number of side-by-side items accepted by a comparison snapshot.
pub const MAX_COMPARISON_ITEMS: usize = 12;

/// Maximum number of feature rows accepted by a comparison snapshot.
pub const MAX_COMPARISON_FEATURES: usize = 128;

/// Presentation state attached to one comparison item.
#[derive(Debug, Clone, Copy, PartialEq, Eq, Structural)]
pub enum ComparisonItemState {
    /// An ordinary comparison item.
    Default,
    /// An item the application wants to call out as recommended or notable.
    Highlighted,
    /// An item that cannot currently be selected or activated.
    Disabled,
}

/// One consumer-owned item displayed as a comparison column.
#[derive(Debug, Clone)]
pub struct ComparisonItem {
    id: String,
    label: String,
    description: Option<String>,
    state: ComparisonItemState,
}

impl ComparisonItem {
    /// The stable identifier.
    pub closed spec fn id_view(self) -> Seq<char> {
        self.id@
    }

    /// The visible label.
    pub closed spec fn label_view(self) -> Seq<char> {
        self.label@
    }

    /// The optional supporting copy.
    pub closed spec fn description_view(self) -> Option<Seq<char>> {
        match self.description {
            Some(d) => Some(d@),
            None => None,
        }
    }

    /// The presentation state.
    pub closed spec fn state_spec(self) -> ComparisonItemState {
        self.state
    }

    /// Whether the item can be selected or focused.
    pub open spec fn enabled(self) -> bool {
        self.state_spec() != ComparisonItemState::Disabled
    }

    /// Creates an ordinary item with stable identity and a visible label.
    pub fn new(id: &str, label: &str) -> (r: Self)
        ensures
            r.id_view() == id@,
            r.label_view() == label@,
            r.description_view() is None,
            r.state_spec() == ComparisonItemState::Default,
    {
        ComparisonItem {
            id: id.to_owned(),
            label: label.to_owned(),
            description: None,
            state: ComparisonItemState::Default,
        }
    }

    /// Adds readable supporting copy for the item header.
    pub fn description(self, description: &str) -> (r: Self)
        ensures
            r.description_view() == Some(description@),
            r.id_view() == self.id_view(),
            r.label_view() == self.label_view(),
            r.state_spec() == self.state_spec(),
    {
        ComparisonItem { description: Some(description.to_owned()), ..self }
    }

    /// Sets the consumer-owned item presentation state.
    pub fn state(self, state: ComparisonItemState) -> (r: Self)
        ensures
            r.state_spec() == state,
            r.id_view() == self.id_view(),
            r.label_view() == self.label_view(),
            r.description_view() == self.description_view(),
    {
        ComparisonItem { state, ..self }
    }

    /// Returns the stable application ID.
    pub fn id(&self) -> (r: &String)
        ensures
            r@ == self.id_view(),
    {
        &self.id
    }

    /// Returns the visible label.
    pub fn label(&self) -> (r: &String)
        ensures
            r@ == self.label_view(),
    {
        &self.label
    }

    /// Returns optional readable supporting copy.
    pub fn description_text(&self) -> (r: Option<&String>)
        ensures
            match r {
                Some(d) => self.description_view() == Some(d@),
                None => self.description_view() is None,
            },
    {
        self.description.as_ref()
    }

    /// Returns the current consumer-owned presentation state.
    pub fn item_state(&self) -> (r: ComparisonItemState)
        ensures
            r == self.state_spec(),
    {
        self.state
    }
}

/// One readable value at the intersection of a feature and comparison item.
#[derive(Debug, Clone)]
pub struct ComparisonValue {
    item_id: String,
    display: String,
    included: Option<bool>,
}

impl ComparisonValue {
    /// The stable item ID this value belongs to.
    pub closed spec fn item_id_view(self) -> Seq<char> {
        self.item_id@
    }

    /// The readable displayed value.
    pub closed spec fn display_view(self) -> Seq<char> {
        self.display@
    }

    /// Explicit support state, when this is an included/not-included value.
    pub closed spec fn included_spec(self) -> Option<bool> {
        self.included
    }

    /// Creates a free-form readable value for one stable item ID.
    pub fn new(item_id: &str, display: &str) -> (r: Self)
        ensures
            r.item_id_view() == item_id@,
            r.display_view() == display@,
            r.included_spec() is None,
    {
        ComparisonValue { item_id: item_id.to_owned(), display: display.to_owned(), included: None }
    }

    /// Creates an explicit included/not-included value without relying on an icon or color.
    pub fn included(item_id: &str, included: bool) -> (r: Self)
        ensures
            r.item_id_view() == item_id@,
            r.display_view() == (if included { "Included"@ } else { "Not included"@ }),
            r.included_spec() == Some(included),
    {
        ComparisonValue {
            item_id: item_id.to_owned(),
            display: if included { "Included".to_owned() } else { "Not included".to_owned() },
            included: Some(included),
        }
    }

    /// Returns the stable item ID this value belongs to.
    pub fn item_id(&self) -> (r: &String)
        ensures
            r@ == self.item_id_view(),
    {
        &self.item_id
    }

    /// Returns the readable displayed value.
    pub fn display(&self) -> (r: &String)
        ensures
            r@ == self.display_view(),
    {
        &self.display
    }

    /// Returns explicit support state when this is an included/not-included value.
    pub fn is_included(&self) -> (r: Option<bool>)
        ensures
            r == self.included_spec(),
    {
        self.included
    }
}

/// The item identities that a list of values refers to, in order.
pub open spec fn value_item_ids(values: Seq<ComparisonValue>) -> Seq<Seq<char>> {
    values.map_values(|v: ComparisonValue| v.item_id_view())
}

/// One feature row with values keyed by stable comparison item ID.
#[derive(Debug, Clone)]
pub struct ComparisonFeature {
    id: String,
    label: String,
    description: Option<String>,
    values: Vec<ComparisonValue>,
}

impl ComparisonFeature {
    /// The stable identifier.
    pub closed spec fn id_view(self) -> Seq<char> {
        self.id@
    }

    /// The visible label.
    pub closed spec fn label_view(self) -> Seq<char> {
        self.label@
    }

    /// The optional supporting copy.
    pub closed spec fn description_view(self) -> Option<Seq<char>> {
        match self.description {
            Some(d) => Some(d@),
            None => None,
        }
    }

    /// The values in consumer order.
    pub closed spec fn values_spec(self) -> Seq<ComparisonValue> {
        self.values@
    }

    /// Creates an empty feature row with stable identity and a visible label.
    pub fn new(id: &str, label: &str) -> (r: Self)
        ensures
            r.id_view() == id@,
            r.label_view() == label@,
            r.description_view() is None,
            r.values_spec() == Seq::<ComparisonValue>::empty(),
    {
        ComparisonFeature { id: id.to_owned(), label: label.to_owned(), description: None, values: Vec::new() }
    }

    /// Adds readable supporting copy for the feature label.
    pub fn description(self, description: &str) -> (r: Self)
        ensures
            r.description_view() == Some(description@),
            r.id_view() == self.id_view(),
            r.label_view() == self.label_view(),
            r.values_spec() == self.values_spec(),
    {
        ComparisonFeature { description: Some(description.to_owned()), ..self }
    }

    /// Replaces the immutable item-value snapshot.
    pub fn values(self, values: Vec<ComparisonValue>) -> (r: Self)
        ensures
            r.values_spec() == values@,
            r.id_view() == self.id_view(),
            r.label_view() == self.label_view(),
            r.description_view() == self.description_view(),
    {
        ComparisonFeature { values, ..self }
    }

    /// Returns the stable application ID.
    pub fn id(&self) -> (r: &String)
        ensures
            r@ == self.id_view(),
    {
        &self.id
    }

    /// Returns the visible label.
    pub fn label(&self) -> (r: &String)
        ensures
            r@ == self.label_view(),
    {
        &self.label
    }

    /// Returns optional readable supporting copy.
    pub fn description_text(&self) -> (r: Option<&String>)
        ensures
            match r {
                Some(d) => self.description_view() == Some(d@),
                None => self.description_view() is None,
            },
    {
        self.description.as_ref()
    }

    /// Returns the first value for a stable item ID.
    pub fn value(&self, item_id: &str) -> (r: Option<&ComparisonValue>)
        ensures
            match r {
                Some(v) => exists|k: int|
                    0 <= k < self.values_spec().len() && self.values_spec()[k] == *v
                        && v.item_id_view() == item_id@
                        && forall|j: int| 0 <= j < k ==> self.values_spec()[j].item_id_view() != item_id@,
                None => !value_item_ids(self.values_spec()).contains(item_id@),
            },
    {
        let key = item_id.to_owned();
        let mut i: usize = 0;
        while i < self.values.len()
            invariant
                i <= self.values@.len(),
                key@ == item_id@,
                forall|j: int| 0 <= j < i ==> self.values@[j].item_id_view() != item_id@,
            decreases self.values@.len() - i,
        {
            if self.values[i].item_id == key {
                assert(self.values_spec()[i as int] == self.values@[i as int]);
                return Some(&self.values[i]);
            }
            i = i + 1;
        }
        assert(!value_item_ids(self.values_spec()).contains(item_id@)) by {
            if value_item_ids(self.values_spec()).contains(item_id@) {
                let k = choose|k: int| 0 <= k < self.values@.len() && value_item_ids(self.values_spec())[k] == item_id@;
                assert(self.values@[k].item_id_view() == item_id@);
            }
        }
        None
    }

    /// Returns the immutable values in consumer order.
    pub fn values_snapshot(&self) -> (r: &Vec<ComparisonValue>)
        ensures
            r@ == self.values_spec(),
    {
        &self.values
    }
}

/// Structural validation failure for a bounded comparison snapshot.
#[derive(Debug, Clone, PartialEq, Eq)]
pub enum ComparisonSnapshotError {
    /// More side-by-side items were supplied than the bounded layout supports.
    TooManyItems {
        /// The largest accepted item count.
        maximum: usize,
    },
    /// More feature rows were supplied than the bounded layout supports.
    TooManyFeatures {
        /// The largest accepted feature count.
        maximum: usize,
    },
    /// Two items reused one stable ID.
    DuplicateItemId(String),
    /// Two features reused one stable ID.
    DuplicateFeatureId(String),
    /// A feature supplied more than one value for the same stable item ID.
    DuplicateValueItemId {
        /// Stable feature ID containing the duplicate.
        feature_id: String,
        /// Reused stable item ID.
        item_id: String,
    },
    /// A feature value referenced an item absent from the snapshot.
    UnknownItemId {
        /// Stable feature ID containing the value.
        feature_id: String,
        /// Unknown stable item ID.
        item_id: String,
    },
}

/// The index of the first entry that repeats an earlier one, or -1.
pub open spec fn first_dup(s: Seq<Seq<char>>) -> int
    decreases s.len(),
{
    if s.len() == 0 {
        -1
    } else {
        let d = first_dup(s.drop_last());
        if d >= 0 {
            d
        } else if s.drop_last().contains(s.last()) {
            s.len() - 1
        } else {
            -1
        }
    }
}

/// The first faulty value of one feature, scanning in order: `(index, 1)`
/// for a repeated item ID, `(index, 2)` for an item the snapshot lacks.
pub open spec fn value_fault(item_ids: Seq<Seq<char>>, vals: Seq<Seq<char>>) -> Option<(int, nat)>
    decreases vals.len(),
{
    if vals.len() == 0 {
        None
    } else {
        let prev = value_fault(item_ids, vals.drop_last());
        if prev is Some {
            prev
        } else if vals.drop_last().contains(vals.last()) {
            Some((vals.len() - 1, 1))
        } else if !item_ids.contains(vals.last()) {
            Some((vals.len() - 1, 2))
        } else {
            None
        }
    }
}

/// The first faulty feature, scanning in order: `(feature, -1, 0)` for a
/// repeated feature ID, otherwise `(feature, value, kind)` of its first
/// faulty value.
pub open spec fn feature_fault(
    item_ids: Seq<Seq<char>>,
    fids: Seq<Seq<char>>,
    fvals: Seq<Seq<Seq<char>>>,
) -> Option<(int, int, nat)>
    decreases fids.len(),
{
    if fids.len() == 0 || fvals.len() != fids.len() {
        None
    } else {
        let prev = feature_fault(item_ids, fids.drop_last(), fvals.drop_last());
        if prev is Some {
            prev
        } else if fids.drop_last().contains(fids.last()) {
            Some((fids.len() - 1, -1, 0))
        } else {
            match value_fault(item_ids, fvals.last()) {
                Some((k, kind)) => Some((fids.len() - 1, k, kind)),
                None => None,
            }
        }
    }
}

/// Identities of items, in order.
pub open spec fn item_ids(items: Seq<ComparisonItem>) -> Seq<Seq<char>> {
    items.map_values(|i: ComparisonItem| i.id_view())
}

/// Identities of features, in order.
pub open spec fn feature_ids(features: Seq<ComparisonFeature>) -> Seq<Seq<char>> {
    features.map_values(|f: ComparisonFeature| f.id_view())
}

/// For each feature, the item identities its values refer to.
pub open spec fn feature_value_ids(features: Seq<ComparisonFeature>) -> Seq<Seq<Seq<char>>> {
    features.map_values(|f: ComparisonFeature| value_item_ids(f.values_spec()))
}

/// The error a snapshot of these items and features is rejected with, if any.
pub open spec fn snapshot_error_matches(
    items: Seq<ComparisonItem>,
    features: Seq<ComparisonFeature>,
    e: ComparisonSnapshotError,
) -> bool {
    if items.len() > MAX_COMPARISON_ITEMS {
        e == ComparisonSnapshotError::TooManyItems { maximum: MAX_COMPARISON_ITEMS }
    } else if features.len() > MAX_COMPARISON_FEATURES {
        e == ComparisonSnapshotError::TooManyFeatures { maximum: MAX_COMPARISON_FEATURES }
    } else if first_dup(item_ids(items)) >= 0 {
        e matches ComparisonSnapshotError::DuplicateItemId(id) && id@ == item_ids(items)[first_dup(item_ids(items))]
    } else {
        match feature_fault(item_ids(items), feature_ids(features), feature_value_ids(features)) {
            Some((j, k, kind)) => if kind == 0 {
                e matches ComparisonSnapshotError::DuplicateFeatureId(id) && id@ == feature_ids(features)[j]
            } else if kind == 1 {
                e matches ComparisonSnapshotError::DuplicateValueItemId { feature_id, item_id }
                    && feature_id@ == feature_ids(features)[j]
                    && item_id@ == feature_value_ids(features)[j][k]
            } else {
                e matches ComparisonSnapshotError::UnknownItemId { feature_id, item_id }
                    && feature_id@ == feature_ids(features)[j]
                    && item_id@ == feature_value_ids(features)[j][k]
            },
            None => false,
        }
    }
}

/// Whether a snapshot of these items and features is structurally valid.
pub open spec fn snapshot_valid(items: Seq<ComparisonItem>, features: Seq<ComparisonFeature>) -> bool {
    &&& items.len() <= MAX_COMPARISON_ITEMS
    &&& features.len() <= MAX_COMPARISON_FEATURES
    &&& first_dup(item_ids(items)) < 0
    &&& feature_fault(item_ids(items), feature_ids(features), feature_value_ids(features)) is None
}

proof fn lemma_first_dup_prefix(s: Seq<Seq<char>>, m: int)
    requires
        0 <= m <= s.len(),
        first_dup(s.take(m)) >= 0,
    ensures
        first_dup(s) == first_dup(s.take(m)),
    decreases s.len() - m,
{
    if m < s.len() {
        assert(s.drop_last().take(m) =~= s.take(m));
        lemma_first_dup_prefix(s.drop_last(), m);
    } else {
        assert(s.take(m) =~= s);
    }
}

proof fn lemma_first_dup_none(s: Seq<Seq<char>>)
    ensures
        first_dup(s) < 0 <==> s.no_duplicates(),
        -1 <= first_dup(s) < s.len(),
    decreases s.len(),
{
    if s.len() > 0 {
        let r = s.drop_last();
        lemma_first_dup_none(r);
        if first_dup(s) < 0 {
            assert forall|i: int, j: int| 0 <= i < s.len() && 0 <= j < s.len() && i != j implies s[i] != s[j] by {
                if i < s.len() - 1 && j < s.len() - 1 {
                    assert(r[i] == s[i] && r[j] == s[j]);
                } else if i == s.len() - 1 {
                    assert(r[j] == s[j]);
                } else {
                    assert(r[i] == s[i]);
                }
            }
        } else if s.no_duplicates() {
            assert(r.no_duplicates()) by {
                assert forall|i: int, j: int| 0 <= i < r.len() && 0 <= j < r.len() && i != j implies r[i] != r[j] by {
                    assert(r[i] == s[i] && r[j] == s[j]);
                }
            }
            let k = choose|k: int| 0 <= k < r.len() && r[k] == s.last();
            assert(s[k] == s[s.len() - 1]);
        }
    }
}

proof fn lemma_value_fault_prefix(ids: Seq<Seq<char>>, s: Seq<Seq<char>>, m: int)
    requires
        0 <= m <= s.len(),
        value_fault(ids, s.take(m)) is Some,
    ensures
        value_fault(ids, s) == value_fault(ids, s.take(m)),
    decreases s.len() - m,
{
    if m < s.len() {
        assert(s.drop_last().take(m) =~= s.take(m));
        lemma_value_fault_prefix(ids, s.drop_last(), m);
    } else {
        assert(s.take(m) =~= s);
    }
}

proof fn lemma_value_fault_bounds(ids: Seq<Seq<char>>, s: Seq<Seq<char>>)
    ensures
        value_fault(ids, s) matches Some((k, kind)) ==> 0 <= k < s.len() && (kind == 1 || kind == 2),
    decreases s.len(),
{
    if s.len() > 0 {
        lemma_value_fault_bounds(ids, s.drop_last());
    }
}

proof fn lemma_feature_fault_prefix(
    ids: Seq<Seq<char>>,
    f: Seq<Seq<char>>,
    v: Seq<Seq<Seq<char>>>,
    m: int,
)
    requires
        0 <= m <= f.len(),
        f.len() == v.len(),
        feature_fault(ids, f.take(m), v.take(m)) is Some,
    ensures
        feature_fault(ids, f, v) == feature_fault(ids, f.take(m), v.take(m)),
    decreases f.len() - m,
{
    if m < f.len() {
        assert(f.drop_last().take(m) =~= f.take(m));
        assert(v.drop_last().take(m) =~= v.take(m));
        lemma_feature_fault_prefix(ids, f.drop_last(), v.drop_last(), m);
    } else {
        assert(f.take(m) =~= f);
        assert(v.take(m) =~= v);
    }
}

proof fn lemma_feature_fault_bounds(ids: Seq<Seq<char>>, f: Seq<Seq<char>>, v: Seq<Seq<Seq<char>>>)
    requires
        f.len() == v.len(),
    ensures
        feature_fault(ids, f, v) matches Some((j, k, kind)) ==> 0 <= j < f.len() && (
        kind == 0 || (kind == 1 || kind == 2) && 0 <= k < v[j].len()),
    decreases f.len(),
{
    if f.len() > 0 {
        lemma_feature_fault_bounds(ids, f.drop_last(), v.drop_last());
        lemma_value_fault_bounds(ids, v.last());
    }
}

proof fn lemma_no_dup_last(s: Seq<Seq<char>>)
    requires
        s.len() > 0,
    ensures
        s.no_duplicates() <==> (s.drop_last().no_duplicates() && !s.drop_last().contains(s.last())),
{
    let r = s.drop_last();
    if s.no_duplicates() {
        assert forall|i: int, j: int| 0 <= i < r.len() && 0 <= j < r.len() && i != j implies r[i] != r[j] by {
            assert(r[i] == s[i] && r[j] == s[j]);
        }
        if r.contains(s.last()) {
            let k = choose|k: int| 0 <= k < r.len() && r[k] == s.last();
            assert(s[k] == s[s.len() - 1]);
        }
    }
    if r.no_duplicates() && !r.contains(s.last()) {
        assert forall|i: int, j: int| 0 <= i < s.len() && 0 <= j < s.len() && i != j implies s[i] != s[j] by {
            if i < s.len() - 1 && j < s.len() - 1 {
                assert(r[i] == s[i] && r[j] == s[j]);
            } else if i == s.len() - 1 {
                assert(r[j] == s[j]);
            } else {
                assert(r[i] == s[i]);
            }
        }
    }
}

proof fn lemma_value_fault_none(ids: Seq<Seq<char>>, vals: Seq<Seq<char>>)
    ensures
        value_fault(ids, vals) is None <==> (vals.no_duplicates() && forall|x: Seq<char>|
            vals.contains(x) ==> ids.contains(x)),
    decreases vals.len(),
{
    if vals.len() > 0 {
        let r = vals.drop_last();
        lemma_value_fault_none(ids, r);
        lemma_no_dup_last(vals);
        if value_fault(ids, vals) is None {
            assert forall|x: Seq<char>| vals.contains(x) implies ids.contains(x) by {
                let k = choose|k: int| 0 <= k < vals.len() && vals[k] == x;
                if k < vals.len() - 1 {
                    assert(r[k] == x);
                }
            }
        }
        if vals.no_duplicates() && forall|x: Seq<char>| vals.contains(x) ==> ids.contains(x) {
            assert forall|x: Seq<char>| r.contains(x) implies ids.contains(x) by {
                let k = choose|k: int| 0 <= k < r.len() && r[k] == x;
                assert(vals[k] == x);
            }
            assert(vals.contains(vals.last())) by {
                assert(vals[vals.len() - 1] == vals.last());
            }
        }
    }
}

proof fn lemma_feature_fault_none(ids: Seq<Seq<char>>, f: Seq<Seq<char>>, v: Seq<Seq<Seq<char>>>)
    requires
        f.len() == v.len(),
    ensures
        feature_fault(ids, f, v) is None <==> (f.no_duplicates() && forall|j: int|
            0 <= j < v.len() ==> #[trigger] value_fault(ids, v[j]) is None),
    decreases f.len(),
{
    if f.len() > 0 {
        let fr = f.drop_last();
        let vr = v.drop_last();
        lemma_feature_fault_none(ids, fr, vr);
        lemma_no_dup_last(f);
        if feature_fault(ids, f, v) is None {
            assert forall|j: int| 0 <= j < v.len() implies #[trigger] value_fault(ids, v[j]) is None by {
                if j < v.len() - 1 {
                    assert(vr[j] == v[j]);
                }
            }
        }
        if f.no_duplicates() && forall|j: int| 0 <= j < v.len() ==> #[trigger] value_fault(ids, v[j]) is None {
            assert forall|j: int| 0 <= j < vr.len() implies #[trigger] value_fault(ids, vr[j]) is None by {
                assert(vr[j] == v[j]);
                assert(value_fault(ids, v[j]) is None);
            }
            assert(value_fault(ids, v[v.len() - 1]) is None);
        }
    }
}

/// A comparison snapshot is accepted exactly when it stays within both
/// bounds, no two items and no two features share an identity, and each
/// feature's values name distinct items that the snapshot holds.
pub proof fn lemma_snapshot_valid_iff_distinct(items: Seq<ComparisonItem>, features: Seq<ComparisonFeature>)
    ensures
        snapshot_valid(items, features) <==> {
            &&& items.len() <= MAX_COMPARISON_ITEMS
            &&& features.len() <= MAX_COMPARISON_FEATURES
            &&& item_ids(items).no_duplicates()
            &&& feature_ids(features).no_duplicates()
            &&& forall|j: int| 0 <= j < features.len() ==> {
                let vals = #[trigger] value_item_ids(features[j].values_spec());
                &&& vals.no_duplicates()
                &&& forall|x: Seq<char>| vals.contains(x) ==> item_ids(items).contains(x)
            }
        },
{
    let ids = item_ids(items);
    let fv = feature_value_ids(features);
    lemma_first_dup_none(ids);
    lemma_feature_fault_none(ids, feature_ids(features), fv);
    assert forall|j: int| 0 <= j < features.len() implies (value_fault(ids, fv[j]) is None <==> {
        let vals = value_item_ids(features[j].values_spec());
        &&& vals.no_duplicates()
        &&& forall|x: Seq<char>| vals.contains(x) ==> ids.contains(x)
    }) by {
        assert(fv[j] == value_item_ids(features[j].values_spec()));
        lemma_value_fault_none(ids, fv[j]);
    }
    if snapshot_valid(items, features) {
        assert forall|j: int| 0 <= j < features.len() implies {
            let vals = #[trigger] value_item_ids(features[j].values_spec());
            &&& vals.no_duplicates()
            &&& forall|x: Seq<char>| vals.contains(x) ==> item_ids(items).contains(x)
        } by {
            assert(value_fault(ids, fv[j]) is None);
        }
    }
    if items.len() <= MAX_COMPARISON_ITEMS && features.len() <= MAX_COMPARISON_FEATURES && ids.no_duplicates()
        && feature_ids(features).no_duplicates() && forall|j: int| 0 <= j < features.len() ==> {
        let vals = #[trigger] value_item_ids(features[j].values_spec());
        &&& vals.no_duplicates()
        &&& forall|x: Seq<char>| vals.contains(x) ==> item_ids(items).contains(x)
    } {
        assert forall|j: int| 0 <= j < fv.len() implies #[trigger] value_fault(ids, fv[j]) is None by {
            assert(fv[j] == value_item_ids(features[j].values_spec()));
        }
    }
}

/// Scans one feature's values; `Some((k, kind))` names its first fault.
fn scan_values(item_key: &Vec<String>, values: &Vec<ComparisonValue>) -> (r: Option<(usize, u8)>)
    ensures
        match r {
            Some((k, kind)) => value_fault(views(item_key@), value_item_ids(values@)) == Some((k as int, kind as nat)),
            None => value_fault(views(item_key@), value_item_ids(values@)) is None,
        },
{
    let ghost vs = value_item_ids(values@);
    let ghost ids = views(item_key@);
    let mut k: usize = 0;
    while k < values.len()
        invariant
            k <= values@.len(),
            vs == value_item_ids(values@),
            ids == views(item_key@),
            value_fault(ids, vs.take(k as int)) is None,
        decreases values@.len() - k,
    {
        let current = &values[k].item_id;
        let mut j: usize = 0;
        let mut repeated = false;
        while j < k
            invariant
                k < values@.len(),
                j <= k,
                vs == value_item_ids(values@),
                current@ == vs[k as int],
                !repeated ==> forall|a: int| 0 <= a < j ==> vs[a] != vs[k as int],
                repeated ==> vs.take(k as int).contains(vs[k as int]),
            decreases k - j,
        {
            if values[j].item_id == *current {
                repeated = true;
                assert(vs.take(k as int)[j as int] == vs[k as int]);
            }
            j = j + 1;
        }
        assert(vs.take(k + 1).drop_last() =~= vs.take(k as int));
        assert(vs.take(k + 1).last() == vs[k as int]);
        if !repeated {
            assert(!vs.take(k as int).contains(vs[k as int])) by {
                if vs.take(k as int).contains(vs[k as int]) {
                    let a = choose|a: int| 0 <= a < k && vs.take(k as int)[a] == vs[k as int];
                    assert(vs[a] == vs[k as int]);
                }
            }
        }
        let known = contains_id(item_key, current);
        if repeated || !known {
            let kind: u8 = if repeated { 1 } else { 2 };
            proof {
                lemma_value_fault_prefix(ids, vs, k + 1);
                assert(vs.take(vs.len() as int) =~= vs);
            }
            return Some((k, kind));
        }
        k = k + 1;
    }
    assert(vs.take(k as int) =~= vs);
    None
}

/// Validated immutable data for one intentionally bounded comparison surface.
#[derive(Debug)]
pub struct ComparisonSnapshot {
    items: Vec<ComparisonItem>,
    features: Vec<ComparisonFeature>,
}

impl ComparisonSnapshot {
    /// A snapshot is always structurally valid.
    #[verifier::type_invariant]
    spec fn valid(self) -> bool {
        snapshot_valid(self.items@, self.features@)
    }

    /// The items in consumer order.
    pub closed spec fn items_spec(self) -> Seq<ComparisonItem> {
        self.items@
    }

    /// The features in consumer order.
    pub closed spec fn features_spec(self) -> Seq<ComparisonFeature> {
        self.features@
    }

    /// An empty snapshot: no items and no features.
    pub fn empty() -> (r: Self)
        ensures
            r.items_spec() == Seq::<ComparisonItem>::empty(),
            r.features_spec() == Seq::<ComparisonFeature>::empty(),
    {
        let items: Vec<ComparisonItem> = Vec::new();
        let features: Vec<ComparisonFeature> = Vec::new();
        assert(item_ids(items@) =~= Seq::<Seq<char>>::empty());
        assert(feature_ids(features@) =~= Seq::<Seq<char>>::empty());
        ComparisonSnapshot { items, features }
    }


    /// Validates and creates a bounded comparison snapshot.
    ///
    /// The checks run in a fixed order and the first failure is reported:
    /// the item bound, the feature bound, a repeated item ID, then feature by
    /// feature a repeated feature ID, and value by value a repeated item ID
    /// or an item the snapshot lacks.
    pub fn try_new(items: Vec<ComparisonItem>, features: Vec<ComparisonFeature>) -> (r: Result<
        Self,
        ComparisonSnapshotError,
    >)
        ensures
            match r {
                Ok(s) => snapshot_valid(items@, features@) && s.items_spec() == items@
                    && s.features_spec() == features@,
                Err(e) => !snapshot_valid(items@, features@) && snapshot_error_matches(items@, features@, e),
            },
    {
        if items.len() > MAX_COMPARISON_ITEMS {
            return Err(ComparisonSnapshotError::TooManyItems { maximum: MAX_COMPARISON_ITEMS });
        }
        if features.len() > MAX_COMPARISON_FEATURES {
            return Err(ComparisonSnapshotError::TooManyFeatures { maximum: MAX_COMPARISON_FEATURES });
        }
        let ghost iids = item_ids(items@);
        let mut item_key: Vec<String> = Vec::new();
        let mut i: usize = 0;
        while i < items.len()
            invariant
                i <= items@.len(),
                items@.len() <= MAX_COMPARISON_ITEMS,
                features@.len() <= MAX_COMPARISON_FEATURES,
                iids == item_ids(items@),
                views(item_key@) == iids.take(i as int),
                first_dup(iids.take(i as int)) < 0,
            decreases items@.len() - i,
        {
            let repeated = contains_id(&item_key, &items[i].id);
            assert(iids[i as int] == items@[i as int].id@);
            assert(iids.take(i + 1).drop_last() =~= iids.take(i as int));
            assert(iids.take(i + 1).last() == iids[i as int]);
            if repeated {
                proof {
                    lemma_first_dup_prefix(iids, i + 1);
                }
                return Err(ComparisonSnapshotError::DuplicateItemId(items[i].id.clone()));
            }
            let ghost before = item_key@;
            item_key.push(items[i].id.clone());
            proof {
                crate::ids::lemma_views_push(before, items@[i as int].id);
                assert(iids.take(i + 1) =~= iids.take(i as int).push(iids[i as int]));
            }
            i = i + 1;
        }
        assert(iids.take(i as int) =~= iids);
        let ghost fids = feature_ids(features@);
        let ghost fvals = feature_value_ids(features@);
        let mut feature_key: Vec<String> = Vec::new();
        let mut j: usize = 0;
        while j < features.len()
            invariant
                j <= features@.len(),
                items@.len() <= MAX_COMPARISON_ITEMS,
                features@.len() <= MAX_COMPARISON_FEATURES,
                first_dup(iids) < 0,
                views(item_key@) == iids,
                iids == item_ids(items@),
                fids == feature_ids(features@),
                fvals == feature_value_ids(features@),
                views(feature_key@) == fids.take(j as int),
                feature_fault(iids, fids.take(j as int), fvals.take(j as int)) is None,
            decreases features@.len() - j,
        {
            let feature = &features[j];
            let repeated = contains_id(&feature_key, &feature.id);
            assert(fids[j as int] == features@[j as int].id@);
            assert(fvals[j as int] == value_item_ids(features@[j as int].values@));
            assert(fids.take(j + 1).drop_last() =~= fids.take(j as int));
            assert(fvals.take(j + 1).drop_last() =~= fvals.take(j as int));
            assert(fids.take(j + 1).last() == fids[j as int]);
            assert(fvals.take(j + 1).last() == fvals[j as int]);
            if repeated {
                proof {
                    lemma_feature_fault_prefix(iids, fids, fvals, j + 1);
                }
                return Err(ComparisonSnapshotError::DuplicateFeatureId(feature.id.clone()));
            }
            match scan_values(&item_key, &feature.values) {
                Some((k, kind)) => {
                    proof {
                        lemma_feature_fault_prefix(iids, fids, fvals, j + 1);
                        assert(fvals[j as int] == value_item_ids(feature.values@));
                        lemma_value_fault_bounds(iids, value_item_ids(feature.values@));
                    }
                    let feature_id = feature.id.clone();
                    let item_id = feature.values[k].item_id.clone();
                    if kind == 1 {
                        return Err(ComparisonSnapshotError::DuplicateValueItemId { feature_id, item_id });
                    } else {
                        return Err(ComparisonSnapshotError::UnknownItemId { feature_id, item_id });
                    }
                },
                None => {},
            }
            let ghost before = feature_key@;
            feature_key.push(feature.id.clone());
            proof {
                crate::ids::lemma_views_push(before, features@[j as int].id);
                assert(fids.take(j + 1) =~= fids.take(j as int).push(fids[j as int]));
            }
            j = j + 1;
        }
        assert(fids.take(j as int) =~= fids);
        assert(fvals.take(j as int) =~= fvals);
        Ok(ComparisonSnapshot { items, features })
    }

    /// Returns the immutable items in consumer order.
    pub fn items(&self) -> (r: &Vec<ComparisonItem>)
        ensures
            r@ == self.items_spec(),
    {
        &self.items
    }

    /// Returns the immutable features in consumer order.
    pub fn features(&self) -> (r: &Vec<ComparisonFeature>)
        ensures
            r@ == self.features_spec(),
    {
        &self.features
    }

    /// Finds the first feature with a stable application ID.
    pub fn feature(&self, feature_id: &str) -> (r: Option<&ComparisonFeature>)
        ensures
            match r {
                Some(f) => f.id_view() == feature_id@ && exists|k: int|
                    0 <= k < self.features_spec().len() && self.features_spec()[k] == *f
                        && forall|j: int| 0 <= j < k ==> self.features_spec()[j].id_view() != feature_id@,
                None => !feature_ids(self.features_spec()).contains(feature_id@),
            },
    {
        let key = feature_id.to_owned();
        let mut i: usize = 0;
        while i < self.features.len()
            invariant
                i <= self.features@.len(),
                key@ == feature_id@,
                forall|j: int| 0 <= j < i ==> self.features@[j].id_view() != feature_id@,
            decreases self.features@.len() - i,
        {
            if self.features[i].id == key {
                assert(self.features_spec()[i as int] == self.features@[i as int]);
                return Some(&self.features[i]);
            }
            i = i + 1;
        }
        assert(!feature_ids(self.features_spec()).contains(feature_id@)) by {
            if feature_ids(self.features_spec()).contains(feature_id@) {
                let k = choose|k: int| 0 <= k < self.features@.len() && feature_ids(self.features_spec())[k] == feature_id@;
                assert(self.features@[k].id_view() == feature_id@);
            }
        }
        None
    }
}

/// Which items can be selected or focused, in order.
pub open spec fn item_enabled(items: Seq<ComparisonItem>) -> Seq<bool> {
    items.map_values(|i: ComparisonItem| i.enabled())
}

/// Whether `id` names an item that can be selected or focused.
pub open spec fn enabled_item(items: Seq<ComparisonItem>, id: Seq<char>) -> bool {
    enabled_id(item_ids(items), item_enabled(items), id)
}

/// The item keyboard focus moves to, `delta` focusable items from the
/// current one, wrapping at either end.
pub open spec fn moved_focus(items: Seq<ComparisonItem>, focused: Option<Seq<char>>, delta: int) -> int {
    moved_spec(item_ids(items), item_enabled(items), focused, delta)
}

/// Keeps a selection only while it names an enabled item.
pub open spec fn kept_selection(items: Seq<ComparisonItem>, selected: Option<Seq<char>>) -> Option<Seq<char>> {
    match selected {
        Some(x) => if enabled_item(items, x) { Some(x) } else { None },
        None => None,
    }
}

/// Keeps keyboard focus on an enabled item, or moves it to the first one.
pub open spec fn kept_focus(items: Seq<ComparisonItem>, focused: Option<Seq<char>>) -> Option<Seq<char>> {
    kept_focus_spec(item_ids(items), item_enabled(items), focused)
}

/// The identities and availability of the items, as two lists.
fn item_keys(items: &Vec<ComparisonItem>) -> (r: (Vec<String>, Vec<bool>))
    ensures
        views(r.0@) == item_ids(items@),
        r.1@ == item_enabled(items@),
        r.0@.len() == items@.len(),
{
    let mut ids: Vec<String> = Vec::new();
    let mut enabled: Vec<bool> = Vec::new();
    let mut i: usize = 0;
    while i < items.len()
        invariant
            i <= items@.len(),
            ids@.len() == i,
            views(ids@) == item_ids(items@).take(i as int),
            enabled@ == item_enabled(items@).take(i as int),
        decreases items@.len() - i,
    {
        ids.push(items[i].id.clone());
        enabled.push(items[i].state != ComparisonItemState::Disabled);
        assert(views(ids@) =~= item_ids(items@).take(i + 1));
        assert(enabled@ =~= item_enabled(items@).take(i + 1));
        i = i + 1;
    }
    assert(item_ids(items@).take(i as int) =~= item_ids(items@));
    assert(item_enabled(items@).take(i as int) =~= item_enabled(items@));
    (ids, enabled)
}

/// The first index of the enabled item `id`, if there is one.
fn enabled_position(items: &Vec<ComparisonItem>, id: &String) -> (r: Option<usize>)
    ensures
        match r {
            Some(k) => k < items@.len() && items@[k as int].id_view() == id@ && items@[k as int].enabled()
                && forall|j: int| 0 <= j < k ==> !(items@[j].id_view() == id@ && items@[j].enabled()),
            None => !enabled_item(items@, id@),
        },
        r is Some ==> enabled_item(items@, id@),
{
    let mut i: usize = 0;
    while i < items.len()
        invariant
            i <= items@.len(),
            forall|j: int| 0 <= j < i ==> !(items@[j].id_view() == id@ && items@[j].enabled()),
        decreases items@.len() - i,
    {
        if items[i].id == *id && items[i].state != ComparisonItemState::Disabled {
            assert(item_ids(items@)[i as int] == id@ && item_enabled(items@)[i as int]);
            return Some(i);
        }
        i = i + 1;
    }
    assert(!enabled_item(items@, id@)) by {
        if enabled_item(items@, id@) {
            let k = choose|k: int| 0 <= k < item_ids(items@).len() && item_ids(items@)[k] == id@ && item_enabled(items@)[k];
            assert(items@[k].id_view() == id@ && items@[k].enabled());
        }
    }
    None
}

/// Typed application intent emitted by a comparison table.
#[derive(Debug, Clone, PartialEq, Eq)]
pub enum ComparisonTableEvent {
    /// An enabled item was chosen through pointer, keyboard, or accessibility activation.
    SelectionRequested {
        /// Stable comparison table ID.
        id: String,
        /// Stable comparison item ID.
        item_id: String,
    },
}

/// The accessible name of an item's column header: the label, with the
/// state called out in words (`Business; Recommended`, `Legacy; Unavailable`).
pub open spec fn item_header_label_spec(item: ComparisonItem) -> Seq<char> {
    match item.state_spec() {
        ComparisonItemState::Default => item.label_view(),
        ComparisonItemState::Highlighted => item.label_view() + "; Recommended"@,
        ComparisonItemState::Disabled => item.label_view() + "; Unavailable"@,
    }
}

/// The accessible name of an item's column header.
pub fn item_header_label(item: &ComparisonItem) -> (r: String)
    ensures
        r@ == item_header_label_spec(*item),
{
    let mut s = item.label.clone();
    match item.state {
        ComparisonItemState::Default => {},
        ComparisonItemState::Highlighted => s.append("; Recommended"),
        ComparisonItemState::Disabled => s.append("; Unavailable"),
    }
    s
}

/// The accessible name of an item's select control: `Select Business`.
pub fn item_control_label(item: &ComparisonItem) -> (r: String)
    ensures
        r@ == "Select "@ + item.label_view(),
{
    let mut s = "Select ".to_owned();
    s.append(item.label.as_str());
    s
}

/// Whether two feature identity sequences are the same sequence: a content
/// update that keeps the reader's place rather than a different document.
pub fn same_feature_sequence(previous: &Vec<String>, features: &Vec<ComparisonFeature>) -> (r: bool)
    ensures
        r == (views(previous@) == feature_ids(features@)),
{
    if previous.len() != features.len() {
        assert(views(previous@).len() != feature_ids(features@).len());
        return false;
    }
    let mut i: usize = 0;
    while i < previous.len()
        invariant
            i <= previous@.len(),
            previous@.len() == features@.len(),
            forall|k: int| 0 <= k < i ==> previous@[k]@ == features@[k].id_view(),
        decreases previous@.len() - i,
    {
        if previous[i] != features[i].id {
            assert(views(previous@)[i as int] != feature_ids(features@)[i as int]);
            return false;
        }
        i = i + 1;
    }
    assert(views(previous@) =~= feature_ids(features@));
    true
}

/// The selection and keyboard focus a comparison table keeps around a
/// consumer-owned snapshot.
pub struct ComparisonTable {
    id: String,
    label: String,
    snapshot: ComparisonSnapshot,
    selected_item_id: Option<String>,
    focused_item_id: Option<String>,
    progress: ProgressState,
}

/// The kind of status line a comparison shows in place of, or above, its data.
#[derive(Debug, Clone, Copy, PartialEq, Eq, Structural)]
pub enum ComparisonStatusRole {
    /// Work in flight: loading or updating.
    Progress,
    /// The comparison could not be produced.
    Alert,
    /// A settled comparison with nothing to compare.
    Status,
}

/// The status line for a snapshot lifecycle and shape: loading, updating,
/// the failure reason, or a settled comparison lacking items or features;
/// nothing for a settled comparison with data.
pub open spec fn comparison_status_spec(
    progress: ProgressState,
    items: nat,
    features: nat,
) -> Option<(ComparisonStatusRole, Seq<char>)> {
    match progress {
        ProgressState::Pending => Some((ComparisonStatusRole::Progress, "Loading comparison"@)),
        ProgressState::Running => Some((ComparisonStatusRole::Progress, "Updating comparison"@)),
        ProgressState::Failed(reason) => Some((ComparisonStatusRole::Alert, reason@)),
        ProgressState::Complete => if items == 0 || features == 0 {
            Some((ComparisonStatusRole::Status, "No comparison data"@))
        } else {
            None
        },
    }
}

impl ComparisonTable {
    /// The stable table identifier.
    pub closed spec fn id_view(self) -> Seq<char> {
        self.id@
    }

    /// The accessible table label.
    pub closed spec fn label_view(self) -> Seq<char> {
        self.label@
    }

    /// The current snapshot.
    pub closed spec fn snapshot_spec(self) -> ComparisonSnapshot {
        self.snapshot
    }

    /// The selected item.
    pub closed spec fn selected(self) -> Option<Seq<char>> {
        opt_view(self.selected_item_id)
    }

    /// The item holding keyboard focus.
    pub closed spec fn focused(self) -> Option<Seq<char>> {
        opt_view(self.focused_item_id)
    }

    /// The lifecycle of the current snapshot.
    pub closed spec fn progress_spec(self) -> ProgressState {
        self.progress
    }

    /// Well-formedness: the snapshot is valid, and selection and focus only
    /// ever name enabled items.
    pub closed spec fn wf(self) -> bool {
        &&& snapshot_valid(self.snapshot.items@, self.snapshot.features@)
        &&& forall|x: Seq<char>| self.selected() == Some(x) ==> enabled_item(self.snapshot.items@, x)
        &&& forall|x: Seq<char>| self.focused() == Some(x) ==> enabled_item(self.snapshot.items@, x)
    }

    /// Creates an empty table with stable identity.
    pub fn new(id: &str, label: &str) -> (r: Self)
        ensures
            r.wf(),
            r.id_view() == id@,
            r.label_view() == label@,
            r.snapshot_spec().items_spec() == Seq::<ComparisonItem>::empty(),
            r.snapshot_spec().features_spec() == Seq::<ComparisonFeature>::empty(),
            r.selected() is None,
            r.focused() is None,
            r.progress_spec() is Pending,
    {
        let r = ComparisonTable {
            id: id.to_owned(),
            label: label.to_owned(),
            snapshot: ComparisonSnapshot::empty(),
            selected_item_id: None,
            focused_item_id: None,
            progress: ProgressState::Pending,
        };
        assert(item_ids(r.snapshot.items@) =~= Seq::<Seq<char>>::empty());
        assert(feature_ids(r.snapshot.features@) =~= Seq::<Seq<char>>::empty());
        r
    }

    /// Replaces the controlled snapshot. A selection that no longer names an
    /// enabled item is cleared; focus that no longer does moves to the first
    /// enabled item. `progress` is where producing the snapshot stands.
    /// Returns whether the feature identities are unchanged (a content
    /// update that keeps the reader's scroll position).
    pub fn set_snapshot(&mut self, snapshot: ComparisonSnapshot, progress: ProgressState) -> (r: bool)
        requires
            old(self).wf(),
        ensures
            final(self).wf(),
            final(self).snapshot_spec() == snapshot,
            final(self).progress_spec() == progress,
            final(self).id_view() == old(self).id_view(),
            final(self).selected() == kept_selection(snapshot.items_spec(), old(self).selected()),
            final(self).focused() == kept_focus(snapshot.items_spec(), old(self).focused()),
            r == (feature_ids(old(self).snapshot_spec().features_spec()) == feature_ids(snapshot.features_spec())),
    {
        proof {
            use_type_invariant(&snapshot);
        }
        let mut previous: Vec<String> = Vec::new();
        let mut i: usize = 0;
        while i < self.snapshot.features.len()
            invariant
                i <= self.snapshot.features@.len(),
                views(previous@) == feature_ids(self.snapshot.features@).take(i as int),
            decreases self.snapshot.features@.len() - i,
        {
            let ghost before = previous@;
            previous.push(self.snapshot.features[i].id.clone());
            proof {
                crate::ids::lemma_views_push(before, self.snapshot.features@[i as int].id);
                assert(feature_ids(self.snapshot.features@).take(i + 1) =~= feature_ids(self.snapshot.features@).take(i as int).push(self.snapshot.features@[i as int].id@));
            }
            i = i + 1;
        }
        assert(feature_ids(self.snapshot.features@).take(i as int) =~= feature_ids(self.snapshot.features@));
        let same = same_feature_sequence(&previous, &snapshot.features);
        let keep_selected = match &self.selected_item_id {
            Some(x) => enabled_position(&snapshot.items, x).is_some(),
            None => false,
        };
        let (ids, enabled) = item_keys(&snapshot.items);
        let focused = keep_focus(&ids, &enabled, &self.focused_item_id);
        if !keep_selected {
            self.selected_item_id = None;
        }
        self.focused_item_id = focused;
        self.snapshot = snapshot;
        self.progress = progress;
        same
    }

    /// The lifecycle of the current snapshot.
    pub fn progress(&self) -> (r: &ProgressState)
        ensures
            *r == self.progress_spec(),
    {
        &self.progress
    }

    /// The status line the table shows: `Loading comparison`, `Updating
    /// comparison`, the failure reason, or `No comparison data` for a
    /// settled comparison without items or features; nothing otherwise.
    pub fn status(&self) -> (r: Option<(ComparisonStatusRole, String)>)
        ensures
            match r {
                Some(p) => comparison_status_spec(
                    self.progress_spec(),
                    self.snapshot_spec().items_spec().len(),
                    self.snapshot_spec().features_spec().len(),
                ) == Some((p.0, p.1@)),
                None => comparison_status_spec(
                    self.progress_spec(),
                    self.snapshot_spec().items_spec().len(),
                    self.snapshot_spec().features_spec().len(),
                ) is None,
            },
    {
        match &self.progress {
            ProgressState::Pending => Some((ComparisonStatusRole::Progress, "Loading comparison".to_owned())),
            ProgressState::Running => Some((ComparisonStatusRole::Progress, "Updating comparison".to_owned())),
            ProgressState::Failed(reason) => Some((ComparisonStatusRole::Alert, reason.clone())),
            ProgressState::Complete => {
                if self.snapshot.items.len() == 0 || self.snapshot.features.len() == 0 {
                    Some((ComparisonStatusRole::Status, "No comparison data".to_owned()))
                } else {
                    None
                }
            },
        }
    }

    /// Replaces the controlled selected item when the stable item is enabled.
    /// Returns whether the selection changed hands.
    pub fn set_selected_item(&mut self, item_id: &str) -> (r: bool)
        requires
            old(self).wf(),
        ensures
            final(self).wf(),
            r == enabled_item(old(self).snapshot_spec().items_spec(), item_id@),
            final(self).selected() == (if r { Some(item_id@) } else { old(self).selected() }),
            final(self).focused() == old(self).focused(),
            final(self).snapshot_spec() == old(self).snapshot_spec(),
            final(self).progress_spec() == old(self).progress_spec(),
    {
        let id = item_id.to_owned();
        if enabled_position(&self.snapshot.items, &id).is_none() {
            return false;
        }
        self.selected_item_id = Some(id);
        true
    }

    /// Clears the current controlled item selection without changing focus.
    pub fn clear_selected_item(&mut self)
        requires
            old(self).wf(),
        ensures
            final(self).wf(),
            final(self).selected() is None,
            final(self).focused() == old(self).focused(),
            final(self).snapshot_spec() == old(self).snapshot_spec(),
            final(self).progress_spec() == old(self).progress_spec(),
    {
        self.selected_item_id = None;
    }

    /// Returns the current controlled selected stable item ID.
    pub fn selected_item_id(&self) -> (r: Option<&String>)
        ensures
            match r {
                Some(x) => self.selected() == Some(x@),
                None => self.selected() is None,
            },
    {
        self.selected_item_id.as_ref()
    }

    /// Returns the stable item ID holding keyboard focus.
    pub fn focused_item_id(&self) -> (r: Option<&String>)
        ensures
            match r {
                Some(x) => self.focused() == Some(x@),
                None => self.focused() is None,
            },
    {
        self.focused_item_id.as_ref()
    }

    /// Returns the current snapshot.
    pub fn snapshot(&self) -> (r: &ComparisonSnapshot)
        ensures
            *r == self.snapshot_spec(),
    {
        &self.snapshot
    }

    /// Moves keyboard focus to an enabled stable item; returns the column to reveal.
    pub fn focus_item(&mut self, item_id: &str) -> (r: Option<usize>)
        requires
            old(self).wf(),
        ensures
            final(self).wf(),
            r is Some == enabled_item(old(self).snapshot_spec().items_spec(), item_id@),
            r matches Some(k) ==> k < old(self).snapshot_spec().items_spec().len()
                && old(self).snapshot_spec().items_spec()[k as int].id_view() == item_id@,
            final(self).focused() == (if r is Some { Some(item_id@) } else { old(self).focused() }),
            final(self).selected() == old(self).selected(),
            final(self).snapshot_spec() == old(self).snapshot_spec(),
            final(self).progress_spec() == old(self).progress_spec(),
    {
        let id = item_id.to_owned();
        match enabled_position(&self.snapshot.items, &id) {
            Some(k) => {
                self.focused_item_id = Some(id);
                Some(k)
            },
            None => None,
        }
    }

    /// Requests selection of an enabled item; disabled or unknown items are ignored.
    pub fn request_selection(&self, item_id: &str) -> (r: Option<ComparisonTableEvent>)
        ensures
            r is Some == enabled_item(self.snapshot_spec().items_spec(), item_id@),
            r matches Some(ComparisonTableEvent::SelectionRequested { id, item_id: chosen }) ==> id@
                == self.id_view() && chosen@ == item_id@,
    {
        let chosen = item_id.to_owned();
        if enabled_position(&self.snapshot.items, &chosen).is_some() {
            Some(ComparisonTableEvent::SelectionRequested { id: self.id.clone(), item_id: chosen })
        } else {
            None
        }
    }

    /// Moves keyboard focus `delta` enabled items from the current one,
    /// wrapping at either end; returns the column to reveal. Nothing happens
    /// when no item is enabled.
    pub fn move_item_focus(&mut self, delta: isize) -> (r: Option<usize>)
        requires
            old(self).wf(),
        ensures
            final(self).wf(),
            r is Some == exists|k: int| 0 <= k < old(self).snapshot_spec().items_spec().len()
                && old(self).snapshot_spec().items_spec()[k].enabled(),
            r matches Some(k) ==> k as int == moved_focus(old(self).snapshot_spec().items_spec(), old(self).focused(), delta as int)
                && final(self).focused() == Some(old(self).snapshot_spec().items_spec()[k as int].id_view()),
            r is None ==> final(self).focused() == old(self).focused(),
            final(self).selected() == old(self).selected(),
            final(self).snapshot_spec() == old(self).snapshot_spec(),
            final(self).progress_spec() == old(self).progress_spec(),
    {
        let (ids, enabled) = item_keys(&self.snapshot.items);
        let n = self.snapshot.items.len();
        proof {
            assert(self.snapshot_spec().items_spec() == self.snapshot.items@);
            lemma_first_dup_none(item_ids(self.snapshot.items@));
            lemma_enabled_positions(views(ids@), enabled@);
            if exists|k: int| 0 <= k < self.snapshot.items@.len() && self.snapshot.items@[k].enabled() {
                let k = choose|k: int| 0 <= k < self.snapshot.items@.len() && self.snapshot.items@[k].enabled();
                assert(enabled@[k]);
            }
            if exists|k: int| 0 <= k < enabled@.len() && enabled@[k] {
                let k = choose|k: int| 0 <= k < enabled@.len() && enabled@[k];
                assert(self.snapshot.items@[k].enabled());
            }
        }
        match move_focus(&ids, &enabled, &self.focused_item_id, delta) {
            Some(index) => {
                assert(index < n);
                proof {
                    assert(views(ids@)[index as int] == self.snapshot.items@[index as int].id_view());
                    assert(enabled_item(self.snapshot.items@, self.snapshot.items@[index as int].id_view()));
                }
                self.focused_item_id = Some(self.snapshot.items[index].id.clone());
                Some(index)
            },
            None => None,
        }
    }

    /// The column of the focused item, when it names an enabled item.
    pub fn focused_item_index(&self) -> (r: Option<usize>)
        ensures
            match r {
                Some(k) => k < self.snapshot_spec().items_spec().len() && self.focused() == Some(
                    self.snapshot_spec().items_spec()[k as int].id_view(),
                ) && self.snapshot_spec().items_spec()[k as int].enabled(),
                None => !(self.focused() matches Some(x) && enabled_item(self.snapshot_spec().items_spec(), x)),
            },
    {
        match &self.focused_item_id {
            Some(f) => enabled_position(&self.snapshot.items, f),
            None => None,
        }
    }

    /// The row of a stable feature, for scrolling it into view.
    pub fn feature_index(&self, feature_id: &str) -> (r: Option<usize>)
        ensures
            match r {
                Some(k) => k < self.snapshot_spec().features_spec().len()
                    && self.snapshot_spec().features_spec()[k as int].id_view() == feature_id@,
                None => !feature_ids(self.snapshot_spec().features_spec()).contains(feature_id@),
            },
    {
        let key = feature_id.to_owned();
        let mut i: usize = 0;
        while i < self.snapshot.features.len()
            invariant
                i <= self.snapshot.features@.len(),
                key@ == feature_id@,
                forall|j: int| 0 <= j < i ==> self.snapshot.features@[j].id_view() != feature_id@,
            decreases self.snapshot.features@.len() - i,
        {
            if self.snapshot.features[i].id == key {
                return Some(i);
            }
            i = i + 1;
        }
        assert(!feature_ids(self.snapshot.features@).contains(feature_id@)) by {
            if feature_ids(self.snapshot.features@).contains(feature_id@) {
                let k = choose|k: int| 0 <= k < self.snapshot.features@.len() && feature_ids(self.snapshot.features@)[k] == feature_id@;
                assert(self.snapshot.features@[k].id_view() == feature_id@);
            }
        }
        None
    }
}

} // verus!
