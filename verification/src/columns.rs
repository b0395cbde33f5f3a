//! Columns, rows and sort of a record table: what the diff and filter
//! tables validate before handing a snapshot on.

use vstd::prelude::*;
use crate::ids::{ids_unique, views};

verus! {

/// The order of a sorted column.
#[derive(Debug, Clone, Copy, PartialEq, Eq, Structural)]
pub enum RecordSortDirection {
    /// Smallest first.
    Ascending,
    /// Largest first.
    Descending,
}

/// One consumer-owned column: its stable identity, header label, and
/// whether the consumer lets people sort by it.
#[derive(Debug, Clone)]
pub struct RecordColumn {
    id: String,
    label: String,
    sortable: bool,
    fixed: bool,
}

impl RecordColumn {
    /// The stable identity.
    pub closed spec fn id_view(self) -> Seq<char> {
        self.id@
    }

    /// The header label.
    pub closed spec fn label_view(self) -> Seq<char> {
        self.label@
    }

    /// Whether the column accepts a sort direction.
    pub closed spec fn sortable_spec(self) -> bool {
        self.sortable
    }

    /// Whether the column stays in place while the others scroll.
    pub closed spec fn fixed_spec(self) -> bool {
        self.fixed
    }

    /// Creates a column that neither sorts nor stays fixed.
    pub fn new(id: &str, label: &str) -> (r: Self)
        ensures
            r.id_view() == id@,
            r.label_view() == label@,
            !r.sortable_spec(),
            !r.fixed_spec(),
    {
        RecordColumn { id: id.to_owned(), label: label.to_owned(), sortable: false, fixed: false }
    }

    /// Lets people sort by this column.
    pub fn sortable(self, sortable: bool) -> (r: Self)
        ensures
            r.sortable_spec() == sortable,
            r.id_view() == self.id_view(),
            r.label_view() == self.label_view(),
            r.fixed_spec() == self.fixed_spec(),
    {
        RecordColumn { sortable, ..self }
    }

    /// Keeps this column in place while the others scroll.
    pub fn fixed(self, fixed: bool) -> (r: Self)
        ensures
            r.fixed_spec() == fixed,
            r.id_view() == self.id_view(),
            r.label_view() == self.label_view(),
            r.sortable_spec() == self.sortable_spec(),
    {
        RecordColumn { fixed, ..self }
    }

    /// The stable identity.
    pub fn id(&self) -> (r: &String)
        ensures
            r@ == self.id_view(),
    {
        &self.id
    }

    /// The header label.
    pub fn label(&self) -> (r: &String)
        ensures
            r@ == self.label_view(),
    {
        &self.label
    }

    /// Whether the column accepts a sort direction.
    pub fn is_sortable(&self) -> (r: bool)
        ensures
            r == self.sortable_spec(),
    {
        self.sortable
    }

    /// Whether the column stays in place while the others scroll.
    pub fn is_fixed(&self) -> (r: bool)
        ensures
            r == self.fixed_spec(),
    {
        self.fixed
    }
}

/// The identities of a column snapshot, in order.
pub open spec fn column_ids(columns: Seq<RecordColumn>) -> Seq<Seq<char>> {
    columns.map_values(|c: RecordColumn| c.id_view())
}

/// Whether the snapshot holds a sortable column with this identity.
pub open spec fn sortable_column(columns: Seq<RecordColumn>, id: Seq<char>) -> bool {
    exists|k: int| 0 <= k < columns.len() && columns[k].id_view() == id && #[trigger] columns[k].sortable_spec()
}

/// A sort survives a column snapshot only while its column is sortable there.
pub open spec fn kept_sort(
    sort: Option<(Seq<char>, RecordSortDirection)>,
    columns: Seq<RecordColumn>,
) -> Option<(Seq<char>, RecordSortDirection)> {
    match sort {
        Some(s) => if sortable_column(columns, s.0) { Some(s) } else { None },
        None => None,
    }
}

/// A sort as identity and direction.
pub open spec fn sort_view(sort: Option<(String, RecordSortDirection)>) -> Option<(Seq<char>, RecordSortDirection)> {
    match sort {
        Some(s) => Some((s.0@, s.1)),
        None => None,
    }
}

/// Whether the snapshot holds a sortable column with this identity.
pub fn has_sortable_column(columns: &Vec<RecordColumn>, id: &str) -> (r: bool)
    ensures
        r == sortable_column(columns@, id@),
{
    let want = id.to_owned();
    let mut i: usize = 0;
    while i < columns.len()
        invariant
            i <= columns@.len(),
            want@ == id@,
            forall|k: int| 0 <= k < i ==> !(columns@[k].id_view() == id@ && columns@[k].sortable_spec()),
        decreases columns@.len() - i,
    {
        if columns[i].sortable && columns[i].id == want {
            assert(columns@[i as int].sortable_spec());
            return true;
        }
        i = i + 1;
    }
    false
}

/// Whether the given leading identities followed by a column snapshot's
/// identities repeat none.
pub fn columns_unique_after(leading: Vec<String>, columns: &Vec<RecordColumn>) -> (r: bool)
    ensures
        r == (views(leading@) + column_ids(columns@)).no_duplicates(),
{
    let mut all = leading;
    let ghost lead = views(all@);
    let mut i: usize = 0;
    while i < columns.len()
        invariant
            i <= columns@.len(),
            views(all@) == lead + column_ids(columns@).take(i as int),
        decreases columns@.len() - i,
    {
        let ghost before = all@;
        all.push(columns[i].id.clone());
        proof {
            crate::ids::lemma_views_push(before, columns@[i as int].id);
            assert(column_ids(columns@).take(i + 1) =~= column_ids(columns@).take(i as int).push(columns@[i as int].id@));
            assert(lead + column_ids(columns@).take(i + 1) =~= (lead + column_ids(columns@).take(i as int)).push(columns@[i as int].id@));
        }
        i = i + 1;
    }
    assert(column_ids(columns@).take(i as int) =~= column_ids(columns@));
    ids_unique(&all)
}

/// One cell of a record row: the column it sits in and its readable text.
#[derive(Debug, Clone)]
pub struct RecordCell {
    column_id: String,
    text: String,
}

impl RecordCell {
    /// The column identity.
    pub closed spec fn column_view(self) -> Seq<char> {
        self.column_id@
    }

    /// The readable text.
    pub closed spec fn text_view(self) -> Seq<char> {
        self.text@
    }

    /// A cell of plain text in a column.
    pub fn text(column_id: &str, text: &str) -> (r: Self)
        ensures
            r.column_view() == column_id@,
            r.text_view() == text@,
    {
        RecordCell { column_id: column_id.to_owned(), text: text.to_owned() }
    }

    /// The column identity.
    pub fn column_id(&self) -> (r: &String)
        ensures
            r@ == self.column_view(),
    {
        &self.column_id
    }

    /// The readable text.
    pub fn value(&self) -> (r: &String)
        ensures
            r@ == self.text_view(),
    {
        &self.text
    }
}

/// One consumer-owned record: stable identity, the label announced for it,
/// its cells, and whether it rejects selection.
#[derive(Debug, Clone)]
pub struct RecordRow {
    id: String,
    label: String,
    cells: Vec<RecordCell>,
    disabled: bool,
}

impl RecordRow {
    /// The stable identity.
    pub closed spec fn id_view(self) -> Seq<char> {
        self.id@
    }

    /// The announced label.
    pub closed spec fn label_view(self) -> Seq<char> {
        self.label@
    }

    /// The cells.
    pub closed spec fn cells_spec(self) -> Seq<RecordCell> {
        self.cells@
    }

    /// Whether the row rejects selection.
    pub closed spec fn disabled_spec(self) -> bool {
        self.disabled
    }

    /// An enabled row without cells.
    pub fn new(id: &str, label: &str) -> (r: Self)
        ensures
            r.id_view() == id@,
            r.label_view() == label@,
            r.cells_spec() == Seq::<RecordCell>::empty(),
            !r.disabled_spec(),
    {
        RecordRow { id: id.to_owned(), label: label.to_owned(), cells: Vec::new(), disabled: false }
    }

    /// Sets the cells, in column order.
    pub fn cells(self, cells: Vec<RecordCell>) -> (r: Self)
        ensures
            r.cells_spec() == cells@,
            r.id_view() == self.id_view(),
            r.label_view() == self.label_view(),
            r.disabled_spec() == self.disabled_spec(),
    {
        RecordRow { cells, ..self }
    }

    /// Sets whether the row rejects selection.
    pub fn disabled(self, disabled: bool) -> (r: Self)
        ensures
            r.disabled_spec() == disabled,
            r.id_view() == self.id_view(),
            r.label_view() == self.label_view(),
            r.cells_spec() == self.cells_spec(),
    {
        RecordRow { disabled, ..self }
    }

    /// The stable identity.
    pub fn id(&self) -> (r: &String)
        ensures
            r@ == self.id_view(),
    {
        &self.id
    }

    /// Whether the row rejects selection.
    pub fn is_disabled(&self) -> (r: bool)
        ensures
            r == self.disabled_spec(),
    {
        self.disabled
    }

    /// The cells.
    pub fn cell_list(&self) -> (r: &Vec<RecordCell>)
        ensures
            r@ == self.cells_spec(),
    {
        &self.cells
    }
}

/// The column identities of a row's cells, in order.
pub open spec fn record_cell_ids(cells: Seq<RecordCell>) -> Seq<Seq<char>> {
    cells.map_values(|c: RecordCell| c.column_view())
}

/// The identities of a row snapshot, in order.
pub open spec fn record_row_ids(rows: Seq<RecordRow>) -> Seq<Seq<char>> {
    rows.map_values(|r: RecordRow| r.id_view())
}

/// A row snapshot is valid when no row identity occurs twice and no column
/// identity occurs twice within one row.
pub open spec fn record_rows_valid(rows: Seq<RecordRow>) -> bool {
    &&& record_row_ids(rows).no_duplicates()
    &&& forall|k: int| 0 <= k < rows.len() ==> #[trigger] record_cell_ids(rows[k].cells_spec()).no_duplicates()
}

/// Whether `id` names a row that accepts selection.
pub open spec fn enabled_record(rows: Seq<RecordRow>, id: Seq<char>) -> bool {
    exists|k: int| 0 <= k < rows.len() && rows[k].id_view() == id && !rows[k].disabled_spec()
}

/// Whether a row snapshot is valid; see [`record_rows_valid`].
pub fn record_rows_have_unique_ids(rows: &Vec<RecordRow>) -> (r: bool)
    ensures
        r == record_rows_valid(rows@),
{
    let mut ids: Vec<String> = Vec::new();
    let mut i: usize = 0;
    while i < rows.len()
        invariant
            i <= rows@.len(),
            ids@.len() == i,
            views(ids@) == record_row_ids(rows@).take(i as int),
            forall|k: int| 0 <= k < i ==> #[trigger] record_cell_ids(rows@[k].cells_spec()).no_duplicates(),
        decreases rows@.len() - i,
    {
        let mut cells: Vec<String> = Vec::new();
        let mut j: usize = 0;
        while j < rows[i].cells.len()
            invariant
                i < rows@.len(),
                j <= rows@[i as int].cells@.len(),
                cells@.len() == j,
                views(cells@) == record_cell_ids(rows@[i as int].cells@).take(j as int),
            decreases rows@[i as int].cells@.len() - j,
        {
            cells.push(rows[i].cells[j].column_id.clone());
            assert(views(cells@) =~= record_cell_ids(rows@[i as int].cells@).take(j + 1));
            j = j + 1;
        }
        assert(record_cell_ids(rows@[i as int].cells@).take(j as int) =~= record_cell_ids(rows@[i as int].cells@));
        if !ids_unique(&cells) {
            assert(!record_cell_ids(rows@[i as int].cells_spec()).no_duplicates());
            return false;
        }
        ids.push(rows[i].id.clone());
        assert(views(ids@) =~= record_row_ids(rows@).take(i + 1));
        i = i + 1;
    }
    assert(record_row_ids(rows@).take(i as int) =~= record_row_ids(rows@));
    ids_unique(&ids)
}

/// The position of an enabled row with this identity, if any.
pub fn enabled_record_position(rows: &Vec<RecordRow>, id: &str) -> (r: Option<usize>)
    ensures
        match r {
            Some(k) => k < rows@.len() && rows@[k as int].id_view() == id@ && !rows@[k as int].disabled_spec(),
            None => !enabled_record(rows@, id@),
        },
{
    let want = id.to_owned();
    let mut i: usize = 0;
    while i < rows.len()
        invariant
            i <= rows@.len(),
            want@ == id@,
            forall|k: int| 0 <= k < i ==> !(rows@[k].id_view() == id@ && !rows@[k].disabled_spec()),
        decreases rows@.len() - i,
    {
        if rows[i].id == want && !rows[i].disabled {
            return Some(i);
        }
        i = i + 1;
    }
    None
}

} // verus!
