//! Controlled filter choices above a records table: the filter snapshot and
//! its validation, keyboard focus across the filter row, toggle intents, and
//! the accessible names of the controls.

use vstd::prelude::*;
use crate::ids::{opt_view, views};
use crate::focus::{enabled_id, keep_focus, kept_focus_spec, move_focus, moved_spec, lemma_enabled_positions};
use crate::text::{decimal, lemma_length_prefixed_injective, push_decimal};
use crate::stream::ProgressState;
use crate::columns::{
    RecordCell, RecordRow, enabled_record, enabled_record_position, record_rows_have_unique_ids, record_rows_valid,
    RecordColumn, RecordSortDirection, column_ids, columns_unique_after, has_sortable_column, kept_sort,
    sort_view, sortable_column,
};
use vstd::string::StringSliceAdditionalSpecFns;

verus! {

broadcast use vstd::seq_lib::group_seq_properties;

/// One consumer-owned filter choice with stable application identity.
#[derive(Debug, Clone)]
pub struct FilterDefinition {
    id: String,
    label: String,
    count: usize,
    active: bool,
    disabled: bool,
}

impl FilterDefinition {
    /// The stable application filter identifier.
    pub closed spec fn id_view(self) -> Seq<char> {
        self.id@
    }

    /// The visible label.
    pub closed spec fn label_view(self) -> Seq<char> {
        self.label@
    }

    /// The consumer-supplied result count.
    pub closed spec fn count_spec(self) -> usize {
        self.count
    }

    /// Whether the filter is active.
    pub closed spec fn active_spec(self) -> bool {
        self.active
    }

    /// Whether the filter rejects activation intent.
    pub closed spec fn disabled_spec(self) -> bool {
        self.disabled
    }

    /// Creates an inactive filter with its current result count.
    pub fn new(id: &str, label: &str, count: usize) -> (r: Self)
        ensures
            r.id_view() == id@,
            r.label_view() == label@,
            r.count_spec() == count,
            !r.active_spec(),
            !r.disabled_spec(),
    {
        FilterDefinition { id: id.to_owned(), label: label.to_owned(), count, active: false, disabled: false }
    }

    /// Sets whether this filter is active in the consumer-owned snapshot.
    pub fn active(self, active: bool) -> (r: Self)
        ensures
            r.active_spec() == active,
            r.id_view() == self.id_view(),
            r.label_view() == self.label_view(),
            r.count_spec() == self.count_spec(),
            r.disabled_spec() == self.disabled_spec(),
    {
        FilterDefinition { active, ..self }
    }

    /// Sets whether this filter rejects activation intent.
    pub fn disabled(self, disabled: bool) -> (r: Self)
        ensures
            r.disabled_spec() == disabled,
            r.id_view() == self.id_view(),
            r.label_view() == self.label_view(),
            r.count_spec() == self.count_spec(),
            r.active_spec() == self.active_spec(),
    {
        FilterDefinition { disabled, ..self }
    }

    /// Returns the stable application filter ID.
    pub fn id(&self) -> (r: &String)
        ensures
            r@ == self.id_view(),
    {
        &self.id
    }

    /// Returns the visible filter label.
    pub fn label(&self) -> (r: &String)
        ensures
            r@ == self.label_view(),
    {
        &self.label
    }

    /// Returns the consumer-supplied result count.
    pub fn count(&self) -> (r: usize)
        ensures
            r == self.count_spec(),
    {
        self.count
    }

    /// Returns whether this filter is active.
    pub fn is_active(&self) -> (r: bool)
        ensures
            r == self.active_spec(),
    {
        self.active
    }

    /// Returns whether this filter rejects activation intent.
    pub fn is_disabled(&self) -> (r: bool)
        ensures
            r == self.disabled_spec(),
    {
        self.disabled
    }
}

/// An optional position as an integer.
pub open spec fn opt_index(o: Option<usize>) -> Option<int> {
    match o {
        Some(k) => Some(k as int),
        None => None,
    }
}

/// The identities of a filter snapshot, in order.
pub open spec fn filter_ids(filters: Seq<FilterDefinition>) -> Seq<Seq<char>> {
    filters.map_values(|f: FilterDefinition| f.id_view())
}

/// Which filters of a snapshot accept activation, in order.
pub open spec fn filter_enabled(filters: Seq<FilterDefinition>) -> Seq<bool> {
    filters.map_values(|f: FilterDefinition| !f.disabled_spec())
}

/// The visible text of a filter control: its label and result count.
pub open spec fn filter_visible_label_spec(f: FilterDefinition) -> Seq<char> {
    f.label_view() + " "@ + decimal(f.count_spec() as nat)
}

/// The accessible name of a filter control: visible text and toggle state,
/// prefixed with `Unavailable: ` when the filter rejects activation.
pub open spec fn filter_control_label_spec(f: FilterDefinition) -> Seq<char> {
    let state = if f.active_spec() { "active"@ } else { "inactive"@ };
    let named = filter_visible_label_spec(f) + ", "@ + state;
    if f.disabled_spec() { "Unavailable: "@ + named } else { named }
}

/// The visible text of a filter control, such as `To do 2`.
pub fn filter_visible_label(filter: &FilterDefinition) -> (r: String)
    ensures
        r@ == filter_visible_label_spec(*filter),
{
    let mut s = filter.label.clone();
    s.append(" ");
    push_decimal(&mut s, filter.count as u64);
    s
}

/// The accessible name of a filter control, such as `To do 2, active` or
/// `Unavailable: Blocked 0, inactive`.
pub fn filter_control_label(filter: &FilterDefinition) -> (r: String)
    ensures
        r@ == filter_control_label_spec(*filter),
{
    let mut s = if filter.disabled { "Unavailable: ".to_owned() } else { String::new() };
    let visible = filter_visible_label(filter);
    s.append(visible.as_str());
    s.append(", ");
    if filter.active {
        s.append("active");
    } else {
        s.append("inactive");
    }
    s
}

/// The accessible name of the filter-control group: `Filters for <label>`.
pub fn filter_controls_label(label: &str) -> (r: String)
    ensures
        r@ == "Filters for "@ + label@,
{
    let mut s = "Filters for ".to_owned();
    s.append(label);
    s
}

/// The live result status: `<n> results`.
pub fn result_label(row_count: usize) -> (r: String)
    ensures
        r@ == decimal(row_count as nat) + " results"@,
{
    let mut s = String::new();
    push_decimal(&mut s, row_count as u64);
    s.append(" results");
    s
}

/// A debug and element identity scoped to one table: the kind, the table
/// identity's length in UTF-8 bytes, the table identity, and the item.
pub open spec fn scoped_filter_id_spec(kind: Seq<char>, table_id: &str, item_id: Seq<char>) -> Seq<char> {
    "filter-table-"@ + kind + "-"@ + decimal(table_id.len() as nat) + ":"@ + table_id@ + item_id
}

/// Scoped identities never collide: for one kind, two tables and items
/// give the same identity only when they are the same table and item.
pub proof fn lemma_scoped_filter_ids_distinct(kind: Seq<char>, t1: &str, i1: Seq<char>, t2: &str, i2: Seq<char>)
    requires
        t1.spec_bytes().len() <= usize::MAX,
        t2.spec_bytes().len() <= usize::MAX,
        scoped_filter_id_spec(kind, t1, i1) == scoped_filter_id_spec(kind, t2, i2),
    ensures
        t1@ == t2@,
        i1 == i2,
{
    let prefix = "filter-table-"@ + kind + "-"@;
    assert(scoped_filter_id_spec(kind, t1, i1) =~= prefix + decimal(t1.len() as nat) + ":"@ + t1@ + i1);
    assert(scoped_filter_id_spec(kind, t2, i2) =~= prefix + decimal(t2.len() as nat) + ":"@ + t2@ + i2);
    lemma_length_prefixed_injective(prefix, t1, i1, t2, i2);
}

/// The scoped identity `filter-table-<kind>-<n>:<table id><item id>`, where
/// `<n>` is the byte length of the table identity.
pub fn scoped_filter_id(kind: &str, table_id: &str, item_id: &str) -> (r: String)
    ensures
        r@ == scoped_filter_id_spec(kind@, table_id, item_id@),
{
    let mut s = "filter-table-".to_owned();
    s.append(kind);
    s.append("-");
    push_decimal(&mut s, table_id.len() as u64);
    s.append(":");
    s.append(table_id);
    s.append(item_id);
    s
}

/// Typed application intent emitted by a filter table.
#[derive(Debug, Clone, PartialEq, Eq)]
pub enum FilterTableEvent {
    /// Requests a new controlled active state for one stable filter.
    FilterRequested {
        /// Stable filter-table ID.
        id: String,
        /// Stable application filter ID.
        filter_id: String,
        /// Requested active state.
        active: bool,
    },
    /// Requests that the application select the identified row.
    SelectionRequested {
        /// Stable filter-table ID.
        id: String,
        /// Stable application row ID.
        row_id: String,
    },
    /// Requests the primary action for the identified row.
    ActivationRequested {
        /// Stable filter-table ID.
        id: String,
        /// Stable application row ID.
        row_id: String,
    },
}

/// The identities and availability of a filter snapshot, as two lists.
fn filter_keys(filters: &Vec<FilterDefinition>) -> (r: (Vec<String>, Vec<bool>))
    ensures
        views(r.0@) == filter_ids(filters@),
        r.1@ == filter_enabled(filters@),
        r.0@.len() == filters@.len(),
{
    let mut ids: Vec<String> = Vec::new();
    let mut enabled: Vec<bool> = Vec::new();
    let mut i: usize = 0;
    while i < filters.len()
        invariant
            i <= filters@.len(),
            ids@.len() == i,
            views(ids@) == filter_ids(filters@).take(i as int),
            enabled@ == filter_enabled(filters@).take(i as int),
        decreases filters@.len() - i,
    {
        ids.push(filters[i].id.clone());
        enabled.push(!filters[i].disabled);
        assert(views(ids@) =~= filter_ids(filters@).take(i + 1));
        assert(enabled@ =~= filter_enabled(filters@).take(i + 1));
        i = i + 1;
    }
    assert(filter_ids(filters@).take(i as int) =~= filter_ids(filters@));
    assert(filter_enabled(filters@).take(i as int) =~= filter_enabled(filters@));
    (ids, enabled)
}

/// The filter row of a filter table: the controlled filter snapshot, which
/// filter holds the row's single tab stop, and whether keyboard focus is in
/// the row.
/// A consumer-owned column of a filter table.
pub type FilterColumn = RecordColumn;

/// The order of a sorted filter-table column.
pub type FilterSortDirection = RecordSortDirection;

/// A consumer-owned record of a filter table.
pub type FilterRow = RecordRow;

/// One cell of a filter-table record.
pub type FilterCell = RecordCell;

pub struct FilterTable {
    id: String,
    label: String,
    filters: Vec<FilterDefinition>,
    columns: Vec<FilterColumn>,
    sort: Option<(String, FilterSortDirection)>,
    rows: Vec<FilterRow>,
    progress: ProgressState,
    selected_row_id: Option<String>,
    focused_filter_id: Option<String>,
    filter_focus_engaged: bool,
}

impl FilterTable {
    /// The stable table identifier.
    pub closed spec fn id_view(self) -> Seq<char> {
        self.id@
    }

    /// The accessible table label.
    pub closed spec fn label_view(self) -> Seq<char> {
        self.label@
    }

    /// The controlled filter snapshot.
    pub closed spec fn filters_spec(self) -> Seq<FilterDefinition> {
        self.filters@
    }

    /// The filter holding the row's tab stop.
    pub closed spec fn focused(self) -> Option<Seq<char>> {
        opt_view(self.focused_filter_id)
    }

    /// Whether keyboard focus is inside the filter row.
    pub closed spec fn focus_engaged(self) -> bool {
        self.filter_focus_engaged
    }

    /// The consumer-owned columns.
    pub closed spec fn columns_spec(self) -> Seq<FilterColumn> {
        self.columns@
    }

    /// The applied sort: column identity and direction.
    pub closed spec fn sort_spec(self) -> Option<(Seq<char>, FilterSortDirection)> {
        sort_view(self.sort)
    }

    /// The consumer-owned records.
    pub closed spec fn rows_spec(self) -> Seq<FilterRow> {
        self.rows@
    }

    /// Where producing the records stands.
    pub closed spec fn row_progress(self) -> ProgressState {
        self.progress
    }

    /// The selected record.
    pub closed spec fn selected_row(self) -> Option<Seq<char>> {
        opt_view(self.selected_row_id)
    }

    /// Well-formedness: no filter identity occurs twice, and the tab stop
    /// only ever names a filter that accepts activation.
    pub open spec fn wf(self) -> bool {
        &&& (self.sort_spec() matches Some(s) ==> sortable_column(self.columns_spec(), s.0))
        &&& record_rows_valid(self.rows_spec())
        &&& forall|x: Seq<char>| self.selected_row() == Some(x) ==> enabled_record(self.rows_spec(), x)
        &&& filter_ids(self.filters_spec()).no_duplicates()
        &&& forall|x: Seq<char>| self.focused() == Some(x)
            ==> enabled_id(filter_ids(self.filters_spec()), filter_enabled(self.filters_spec()), x)
    }

    /// Creates an empty filter table with stable identity and an accessible label.
    pub fn new(id: &str, label: &str) -> (r: Self)
        ensures
            r.wf(),
            r.id_view() == id@,
            r.label_view() == label@,
            r.filters_spec() == Seq::<FilterDefinition>::empty(),
            r.focused() is None,
            !r.focus_engaged(),
            r.columns_spec() == Seq::<FilterColumn>::empty(),
            r.sort_spec() is None,
            r.rows_spec() == Seq::<FilterRow>::empty(),
            r.row_progress() is Pending,
            r.selected_row() is None,
    {
        let r = FilterTable {
            id: id.to_owned(),
            label: label.to_owned(),
            filters: Vec::new(),
            columns: Vec::new(),
            sort: None,
            rows: Vec::new(),
            progress: ProgressState::Pending,
            selected_row_id: None,
            focused_filter_id: None,
            filter_focus_engaged: false,
        };
        assert(filter_ids(r.filters@) =~= Seq::<Seq<char>>::empty());
        assert(crate::columns::record_row_ids(r.rows@) =~= Seq::<Seq<char>>::empty());
        r
    }

    /// The item index the filter row scrolls to so that the filter at
    /// `index` is in view: the row's scrollbar layer is its first child.
    pub open spec fn scroll_item(index: int) -> int {
        index + 1
    }

    /// The scroll target of the identified filter, if the snapshot has it.
    pub open spec fn filter_scroll_target(filters: Seq<FilterDefinition>, filter_id: Seq<char>, enabled_only: bool) -> Option<int> {
        if exists|k: int| 0 <= k < filters.len() && filters[k].id_view() == filter_id && (enabled_only ==> !filters[k].disabled_spec()) {
            Some(Self::scroll_item(choose|k: int| 0 <= k < filters.len() && filters[k].id_view() == filter_id && (enabled_only ==> !filters[k].disabled_spec())))
        } else {
            None
        }
    }

    /// Replaces the controlled filter definitions. A snapshot in which a
    /// stable filter identity occurs twice is ignored as a whole. Otherwise
    /// the tab stop stays on its filter when that filter still accepts
    /// activation, and moves to the first one that does when it does not.
    /// While keyboard focus is in the row, returns the scroll target that
    /// reveals the filter holding the tab stop.
    pub fn set_filters(&mut self, filters: Vec<FilterDefinition>) -> (r: Option<usize>)
        requires
            old(self).wf(),
        ensures
            final(self).wf(),
            final(self).id_view() == old(self).id_view(),
            final(self).label_view() == old(self).label_view(),
            final(self).focus_engaged() == old(self).focus_engaged(),
            filter_ids(filters@).no_duplicates() ==> {
                &&& final(self).filters_spec() == filters@
                &&& final(self).focused() == kept_focus_spec(filter_ids(filters@), filter_enabled(filters@), old(self).focused())
                &&& opt_index(r) == if final(self).focus_engaged() {
                        match final(self).focused() {
                            Some(x) => Self::filter_scroll_target(filters@, x, true),
                            None => None,
                        }
                    } else {
                        None
                    }
            },
            !filter_ids(filters@).no_duplicates() ==> *final(self) == *old(self) && r is None,
            final(self).columns_spec() == old(self).columns_spec(),
            final(self).sort_spec() == old(self).sort_spec(),
            final(self).rows_spec() == old(self).rows_spec(),
            final(self).row_progress() == old(self).row_progress(),
            final(self).selected_row() == old(self).selected_row(),
    {
        let (ids, enabled) = filter_keys(&filters);
        if !crate::ids::ids_unique(&ids) {
            return None;
        }
        let focused = keep_focus(&ids, &enabled, &self.focused_filter_id);
        self.filters = filters;
        self.focused_filter_id = focused;
        if self.filter_focus_engaged {
            self.reveal_focused_filter()
        } else {
            None
        }
    }

    /// Replaces the consumer-owned columns. A snapshot that repeats a
    /// column identity is ignored as a whole and `false` returned. A sort
    /// whose column is no longer sortable is cleared.
    pub fn set_columns(&mut self, columns: Vec<FilterColumn>) -> (r: bool)
        requires
            old(self).wf(),
        ensures
            final(self).wf(),
            r == column_ids(columns@).no_duplicates(),
            !r ==> *final(self) == *old(self),
            r ==> final(self).columns_spec() == columns@
                && final(self).sort_spec() == kept_sort(old(self).sort_spec(), columns@),
            final(self).filters_spec() == old(self).filters_spec(),
            final(self).focused() == old(self).focused(),
            final(self).focus_engaged() == old(self).focus_engaged(),
            final(self).id_view() == old(self).id_view(),
            final(self).label_view() == old(self).label_view(),
            final(self).rows_spec() == old(self).rows_spec(),
            final(self).row_progress() == old(self).row_progress(),
            final(self).selected_row() == old(self).selected_row(),
    {
        let leading: Vec<String> = Vec::new();
        assert(views(leading@) + column_ids(columns@) =~= column_ids(columns@));
        if !columns_unique_after(leading, &columns) {
            return false;
        }
        let keep = match &self.sort {
            Some(s) => has_sortable_column(&columns, s.0.as_str()),
            None => false,
        };
        if !keep {
            self.sort = None;
        }
        self.columns = columns;
        true
    }

    /// The consumer-owned columns.
    pub fn columns(&self) -> (r: &Vec<FilterColumn>)
        ensures
            r@ == self.columns_spec(),
    {
        &self.columns
    }

    /// Applies a sort, or clears it with no direction. A direction is only
    /// accepted for a sortable column the table holds; otherwise nothing
    /// changes and `false` is returned.
    pub fn set_sort(&mut self, column_id: &str, direction: Option<FilterSortDirection>) -> (r: bool)
        requires
            old(self).wf(),
        ensures
            final(self).wf(),
            r == (direction is None || sortable_column(old(self).columns_spec(), column_id@)),
            !r ==> *final(self) == *old(self),
            r ==> final(self).sort_spec() == match direction {
                Some(d) => Some((column_id@, d)),
                None => None,
            },
            final(self).columns_spec() == old(self).columns_spec(),
            final(self).filters_spec() == old(self).filters_spec(),
            final(self).focused() == old(self).focused(),
            final(self).focus_engaged() == old(self).focus_engaged(),
            final(self).id_view() == old(self).id_view(),
            final(self).rows_spec() == old(self).rows_spec(),
            final(self).row_progress() == old(self).row_progress(),
            final(self).selected_row() == old(self).selected_row(),
    {
        match direction {
            Some(d) => {
                if !has_sortable_column(&self.columns, column_id) {
                    return false;
                }
                self.sort = Some((column_id.to_owned(), d));
            },
            None => {
                self.sort = None;
            },
        }
        true
    }

    /// The applied sort: column identity and direction.
    pub fn sort(&self) -> (r: Option<(&String, FilterSortDirection)>)
        ensures
            match r {
                Some(p) => self.sort_spec() == Some((p.0@, p.1)),
                None => self.sort_spec() is None,
            },
    {
        match &self.sort {
            Some(s) => Some((&s.0, s.1)),
            None => None,
        }
    }

    /// Replaces the controlled records and where producing them stands. A
    /// snapshot that repeats a record identity, or a column identity within
    /// one record, is ignored as a whole and `false` returned. A selection
    /// that no longer names an enabled record is cleared.
    pub fn set_rows(&mut self, rows: Vec<FilterRow>, progress: ProgressState) -> (r: bool)
        requires
            old(self).wf(),
        ensures
            final(self).wf(),
            r == record_rows_valid(rows@),
            !r ==> *final(self) == *old(self),
            r ==> {
                &&& final(self).rows_spec() == rows@
                &&& final(self).row_progress() == progress
                &&& final(self).selected_row() == match old(self).selected_row() {
                    Some(x) => if enabled_record(rows@, x) { Some(x) } else { None },
                    None => None,
                }
            },
            final(self).filters_spec() == old(self).filters_spec(),
            final(self).columns_spec() == old(self).columns_spec(),
            final(self).sort_spec() == old(self).sort_spec(),
            final(self).focused() == old(self).focused(),
            final(self).focus_engaged() == old(self).focus_engaged(),
            final(self).id_view() == old(self).id_view(),
    {
        if !record_rows_have_unique_ids(&rows) {
            return false;
        }
        let keep = match &self.selected_row_id {
            Some(x) => enabled_record_position(&rows, x.as_str()).is_some(),
            None => false,
        };
        if !keep {
            self.selected_row_id = None;
        }
        self.rows = rows;
        self.progress = progress;
        true
    }

    /// The controlled records.
    pub fn rows(&self) -> (r: &Vec<FilterRow>)
        ensures
            r@ == self.rows_spec(),
    {
        &self.rows
    }

    /// Where producing the records stands.
    pub fn progress(&self) -> (r: &ProgressState)
        ensures
            *r == self.row_progress(),
    {
        &self.progress
    }

    /// Selects a record when it is enabled; returns whether it was.
    pub fn set_selected_row(&mut self, row_id: &str) -> (r: bool)
        requires
            old(self).wf(),
        ensures
            final(self).wf(),
            r == enabled_record(old(self).rows_spec(), row_id@),
            final(self).selected_row() == (if r { Some(row_id@) } else { old(self).selected_row() }),
            final(self).rows_spec() == old(self).rows_spec(),
            final(self).row_progress() == old(self).row_progress(),
            final(self).filters_spec() == old(self).filters_spec(),
            final(self).columns_spec() == old(self).columns_spec(),
            final(self).sort_spec() == old(self).sort_spec(),
            final(self).focused() == old(self).focused(),
            final(self).focus_engaged() == old(self).focus_engaged(),
            final(self).id_view() == old(self).id_view(),
    {
        match enabled_record_position(&self.rows, row_id) {
            Some(_) => {
                self.selected_row_id = Some(row_id.to_owned());
                true
            },
            None => false,
        }
    }

    /// Clears the selected record.
    pub fn clear_selected_row(&mut self)
        requires
            old(self).wf(),
        ensures
            final(self).wf(),
            final(self).selected_row() is None,
            final(self).rows_spec() == old(self).rows_spec(),
            final(self).row_progress() == old(self).row_progress(),
            final(self).filters_spec() == old(self).filters_spec(),
            final(self).columns_spec() == old(self).columns_spec(),
            final(self).sort_spec() == old(self).sort_spec(),
            final(self).focused() == old(self).focused(),
            final(self).focus_engaged() == old(self).focus_engaged(),
            final(self).id_view() == old(self).id_view(),
    {
        self.selected_row_id = None;
    }

    /// The selected record's identity.
    pub fn selected_row_id(&self) -> (r: Option<&String>)
        ensures
            match r {
                Some(x) => self.selected_row() == Some(x@),
                None => self.selected_row() is None,
            },
    {
        self.selected_row_id.as_ref()
    }

    /// Returns the current controlled filter definitions.
    pub fn filters(&self) -> (r: &Vec<FilterDefinition>)
        ensures
            r@ == self.filters_spec(),
    {
        &self.filters
    }

    /// Returns the filter holding the row's tab stop.
    pub fn focused_filter_id(&self) -> (r: Option<&String>)
        ensures
            match r {
                Some(x) => self.focused() == Some(x@),
                None => self.focused() is None,
            },
    {
        self.focused_filter_id.as_ref()
    }

    /// Returns whether keyboard focus is inside the filter row.
    pub fn is_filter_focus_engaged(&self) -> (r: bool)
        ensures
            r == self.focus_engaged(),
    {
        self.filter_focus_engaged
    }

    /// The first position of the filter with identity `filter_id`, among
    /// those that accept activation when `enabled_only` holds.
    fn filter_position(&self, filter_id: &str, enabled_only: bool) -> (r: Option<usize>)
        requires
            self.wf(),
        ensures
            opt_index(r) == (match Self::filter_scroll_target(self.filters_spec(), filter_id@, enabled_only) {
                Some(t) => Some(t - 1),
                None => None,
            }),
            r matches Some(k) ==> k < self.filters_spec().len() && k < self.filters.len(),
    {
        let ghost fs = self.filters@;
        let target = filter_id.to_owned();
        let mut i: usize = 0;
        while i < self.filters.len()
            invariant
                i <= fs.len(),
                fs == self.filters@,
                self.wf(),
                target@ == filter_id@,
                forall|k: int| 0 <= k < i ==> !(fs[k].id_view() == filter_id@ && (enabled_only ==> !fs[k].disabled_spec())),
            decreases fs.len() - i,
        {
            let f = &self.filters[i];
            if f.id == target && (!enabled_only || !f.disabled) {
                proof {
                    let c = choose|k: int| 0 <= k < fs.len() && fs[k].id_view() == filter_id@ && (enabled_only ==> !fs[k].disabled_spec());
                    if c != i as int {
                        assert(filter_ids(fs)[c] == filter_ids(fs)[i as int]);
                    }
                }
                return Some(i);
            }
            i = i + 1;
        }
        None
    }

    /// Where the filter row scrolls to reveal the identified filter, or
    /// `None` when the snapshot has no such filter.
    pub fn scroll_to_filter(&self, filter_id: &str) -> (r: Option<usize>)
        requires
            self.wf(),
        ensures
            opt_index(r) == Self::filter_scroll_target(self.filters_spec(), filter_id@, false),
    {
        match self.filter_position(filter_id, false) {
            Some(k) => Some(k + 1),
            None => None,
        }
    }

    /// Where the filter row scrolls to reveal the filter holding the tab
    /// stop, if any filter holds it.
    pub fn reveal_focused_filter(&self) -> (r: Option<usize>)
        requires
            self.wf(),
        ensures
            opt_index(r) == match self.focused() {
                Some(x) => Self::filter_scroll_target(self.filters_spec(), x, true),
                None => None,
            },
    {
        match &self.focused_filter_id {
            Some(x) => match self.filter_position(x.as_str(), true) {
                Some(k) => Some(k + 1),
                None => None,
            },
            None => None,
        }
    }

    /// Moves the tab stop to an enabled filter and engages keyboard focus in
    /// the row; returns the scroll target that reveals it. A filter that is
    /// missing or rejects activation leaves everything unchanged.
    pub fn focus_filter(&mut self, filter_id: &str) -> (r: Option<usize>)
        requires
            old(self).wf(),
        ensures
            final(self).wf(),
            opt_index(r) == Self::filter_scroll_target(old(self).filters_spec(), filter_id@, true),
            r is None ==> *final(self) == *old(self),
            r is Some ==> {
                &&& final(self).focused() == Some(filter_id@)
                &&& final(self).focus_engaged()
                &&& final(self).filters_spec() == old(self).filters_spec()
                &&& final(self).id_view() == old(self).id_view()
                &&& final(self).label_view() == old(self).label_view()
            },
            final(self).columns_spec() == old(self).columns_spec(),
            final(self).sort_spec() == old(self).sort_spec(),
            final(self).rows_spec() == old(self).rows_spec(),
            final(self).row_progress() == old(self).row_progress(),
            final(self).selected_row() == old(self).selected_row(),
    {
        match self.filter_position(filter_id, true) {
            Some(k) => {
                proof {
                    assert(filter_ids(self.filters@)[k as int] == filter_id@);
                    assert(filter_enabled(self.filters@)[k as int]);
                }
                self.focused_filter_id = Some(self.filters[k].id.clone());
                self.filter_focus_engaged = true;
                Some(k + 1)
            },
            None => None,
        }
    }

    /// Keyboard focus entered the filter row; returns the scroll target that
    /// reveals the filter holding the tab stop.
    pub fn focus_gained(&mut self) -> (r: Option<usize>)
        requires
            old(self).wf(),
        ensures
            final(self).wf(),
            final(self).focus_engaged(),
            final(self).filters_spec() == old(self).filters_spec(),
            final(self).focused() == old(self).focused(),
            final(self).id_view() == old(self).id_view(),
            final(self).label_view() == old(self).label_view(),
            opt_index(r) == match old(self).focused() {
                Some(x) => Self::filter_scroll_target(old(self).filters_spec(), x, true),
                None => None,
            },
            final(self).columns_spec() == old(self).columns_spec(),
            final(self).sort_spec() == old(self).sort_spec(),
            final(self).rows_spec() == old(self).rows_spec(),
            final(self).row_progress() == old(self).row_progress(),
            final(self).selected_row() == old(self).selected_row(),
    {
        self.filter_focus_engaged = true;
        self.reveal_focused_filter()
    }

    /// Keyboard focus left the filter row.
    pub fn focus_lost(&mut self)
        requires
            old(self).wf(),
        ensures
            final(self).wf(),
            !final(self).focus_engaged(),
            final(self).filters_spec() == old(self).filters_spec(),
            final(self).focused() == old(self).focused(),
            final(self).id_view() == old(self).id_view(),
            final(self).label_view() == old(self).label_view(),
            final(self).columns_spec() == old(self).columns_spec(),
            final(self).sort_spec() == old(self).sort_spec(),
            final(self).rows_spec() == old(self).rows_spec(),
            final(self).row_progress() == old(self).row_progress(),
            final(self).selected_row() == old(self).selected_row(),
    {
        self.filter_focus_engaged = false;
    }

    /// The intent that a click on the identified filter produces: a request
    /// to flip its active state. A missing filter, or one that rejects
    /// activation, produces none.
    pub fn request_filter(&self, filter_id: &str) -> (r: Option<FilterTableEvent>)
        requires
            self.wf(),
        ensures
            r is Some <==> Self::filter_scroll_target(self.filters_spec(), filter_id@, true) is Some,
            r matches Some(FilterTableEvent::FilterRequested { id, filter_id: fid, active }) ==> {
                let k = Self::filter_scroll_target(self.filters_spec(), filter_id@, true).unwrap() - 1;
                &&& id@ == self.id_view()
                &&& fid@ == filter_id@
                &&& active == !self.filters_spec()[k].active_spec()
            },
            r matches Some(e) ==> e is FilterRequested,
    {
        match self.filter_position(filter_id, true) {
            Some(k) => Some(FilterTableEvent::FilterRequested {
                id: self.id.clone(),
                filter_id: filter_id.to_owned(),
                active: !self.filters[k].active,
            }),
            None => None,
        }
    }

    /// Moves the tab stop `delta` enabled filters from its current one
    /// (from the first when it is on none), wrapping at either end, and
    /// engages keyboard focus in the row; returns the scroll target that
    /// reveals it. With no enabled filter nothing changes.
    pub fn move_filter_focus(&mut self, delta: isize) -> (r: Option<usize>)
        requires
            old(self).wf(),
        ensures
            final(self).wf(),
            final(self).filters_spec() == old(self).filters_spec(),
            final(self).id_view() == old(self).id_view(),
            final(self).label_view() == old(self).label_view(),
            r is Some <==> exists|k: int| 0 <= k < old(self).filters_spec().len() && !old(self).filters_spec()[k].disabled_spec(),
            r is None ==> *final(self) == *old(self),
            r matches Some(t) ==> {
                let k = moved_spec(
                    filter_ids(old(self).filters_spec()),
                    filter_enabled(old(self).filters_spec()),
                    old(self).focused(),
                    delta as int,
                );
                &&& t == k + 1
                &&& final(self).focused() == Some(filter_ids(old(self).filters_spec())[k])
                &&& final(self).focus_engaged()
            },
            final(self).columns_spec() == old(self).columns_spec(),
            final(self).sort_spec() == old(self).sort_spec(),
            final(self).rows_spec() == old(self).rows_spec(),
            final(self).row_progress() == old(self).row_progress(),
            final(self).selected_row() == old(self).selected_row(),
    {
        let (ids, enabled) = filter_keys(&self.filters);
        proof {
            lemma_enabled_positions(views(ids@), enabled@);
            if exists|k: int| 0 <= k < self.filters@.len() && !self.filters@[k].disabled_spec() {
                let k = choose|k: int| 0 <= k < self.filters@.len() && !self.filters@[k].disabled_spec();
                assert(enabled@[k]);
            }
            if exists|k: int| 0 <= k < enabled@.len() && enabled@[k] {
                let k = choose|k: int| 0 <= k < enabled@.len() && enabled@[k];
                assert(!self.filters@[k].disabled_spec());
            }
        }
        let n = self.filters.len();
        match move_focus(&ids, &enabled, &self.focused_filter_id, delta) {
            Some(k) => {
                assert(k < n);
                proof {
                    assert(views(ids@)[k as int] == self.filters@[k as int].id_view());
                    assert(enabled_id(filter_ids(self.filters@), filter_enabled(self.filters@), filter_ids(self.filters@)[k as int]));
                }
                self.focused_filter_id = Some(self.filters[k].id.clone());
                self.filter_focus_engaged = true;
                Some(k + 1)
            },
            None => None,
        }
    }
}

} // verus!
