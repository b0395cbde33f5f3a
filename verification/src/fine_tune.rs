//! The typeface catalog of a design-property inspector: which catalogs are
//! well-formed, and which typeface choices take effect. Numeric properties
//! and colors are measured in floating point and are handled where they
//! are drawn.

use vstd::prelude::*;

verus! {

broadcast use vstd::seq_lib::group_seq_properties;

/// One application-owned typeface choice. IDs must be stable and unique in
/// a snapshot; labels may be duplicated.
#[derive(Clone, Debug, PartialEq, Eq)]
pub struct FineTuneTypeface {
    id: String,
    label: String,
}

impl FineTuneTypeface {
    /// The stable application identity.
    pub closed spec fn id_view(self) -> Seq<char> {
        self.id@
    }

    /// The visible label.
    pub closed spec fn label_view(self) -> Seq<char> {
        self.label@
    }

    /// Creates a typeface choice with stable identity and a visible label.
    pub fn new(id: &str, label: &str) -> (r: Self)
        ensures
            r.id_view() == id@,
            r.label_view() == label@,
    {
        FineTuneTypeface { id: id.to_owned(), label: label.to_owned() }
    }

    /// Returns the stable application identity.
    pub fn id(&self) -> (r: &String)
        ensures
            r@ == self.id_view(),
    {
        &self.id
    }

    /// Returns the visible label.
    pub fn label(&self) -> (r: &String)
        ensures
            r@ == self.label_view(),
    {
        &self.label
    }
}

/// The identities of a typeface catalog, in order.
pub open spec fn typeface_ids(typefaces: Seq<FineTuneTypeface>) -> Seq<Seq<char>> {
    typefaces.map_values(|t: FineTuneTypeface| t.id_view())
}

/// A catalog is well-formed when no identity is empty and none repeats.
pub open spec fn typefaces_valid(typefaces: Seq<FineTuneTypeface>) -> bool {
    &&& typeface_ids(typefaces).no_duplicates()
    &&& forall|k: int| 0 <= k < typefaces.len() ==> #[trigger] typefaces[k].id_view().len() > 0
}

/// Validates a typeface catalog: the catalog itself when well-formed, and
/// nothing when an identity is empty or repeats (labels may repeat).
pub fn valid_typefaces(typefaces: Vec<FineTuneTypeface>) -> (r: Option<Vec<FineTuneTypeface>>)
    ensures
        match r {
            Some(v) => v@ == typefaces@ && typefaces_valid(typefaces@),
            None => !typefaces_valid(typefaces@),
        },
{
    let mut i: usize = 0;
    while i < typefaces.len()
        invariant
            i <= typefaces@.len(),
            forall|k: int| 0 <= k < i ==> #[trigger] typefaces@[k].id_view().len() > 0,
            forall|a: int, b: int| 0 <= a < b < i ==> typefaces@[a].id_view() != typefaces@[b].id_view(),
        decreases typefaces@.len() - i,
    {
        if typefaces[i].id.as_str().is_empty() {
            assert(!(typefaces@[i as int].id_view().len() > 0));
            return None;
        }
        let mut j: usize = 0;
        while j < i
            invariant
                i < typefaces@.len(),
                j <= i,
                forall|a: int| 0 <= a < j ==> typefaces@[a].id_view() != typefaces@[i as int].id_view(),
            decreases i - j,
        {
            if typefaces[j].id == typefaces[i].id {
                assert(typeface_ids(typefaces@)[j as int] == typeface_ids(typefaces@)[i as int]);
                return None;
            }
            j = j + 1;
        }
        i = i + 1;
    }
    assert forall|a: int, b: int|
        0 <= a < typeface_ids(typefaces@).len() && 0 <= b < typeface_ids(typefaces@).len() && a != b
        implies typeface_ids(typefaces@)[a] != typeface_ids(typefaces@)[b] by {
        if a < b {
            assert(typefaces@[a].id_view() != typefaces@[b].id_view());
        } else {
            assert(typefaces@[b].id_view() != typefaces@[a].id_view());
        }
    }
    Some(typefaces)
}

/// Whether a requested typeface takes effect: it must differ from the
/// current one and be in the catalog.
pub fn typeface_change(current: &str, catalog: &Vec<FineTuneTypeface>, requested: &str) -> (r: bool)
    ensures
        r == (current@ != requested@ && typeface_ids(catalog@).contains(requested@)),
{
    let want = requested.to_owned();
    if current.to_owned() == want {
        return false;
    }
    let mut i: usize = 0;
    while i < catalog.len()
        invariant
            i <= catalog@.len(),
            want@ == requested@,
            current@ != requested@,
            forall|k: int| 0 <= k < i ==> catalog@[k].id_view() != requested@,
        decreases catalog@.len() - i,
    {
        if catalog[i].id == want {
            assert(typeface_ids(catalog@)[i as int] == requested@);
            return true;
        }
        i = i + 1;
    }
    assert(!typeface_ids(catalog@).contains(requested@)) by {
        if typeface_ids(catalog@).contains(requested@) {
            let k = choose|k: int| 0 <= k < typeface_ids(catalog@).len() && typeface_ids(catalog@)[k] == requested@;
            assert(catalog@[k].id_view() == requested@);
        }
    }
    false
}

/// The text of the typeface picker's trigger: the label of the first
/// catalog entry with the selected identity; otherwise `No typefaces
/// available` for an empty catalog, or `Unavailable typeface: <id>`.
pub fn typeface_trigger_label(typefaces: &Vec<FineTuneTypeface>, selected: &str) -> (r: String)
    ensures
        typeface_ids(typefaces@).contains(selected@) ==> exists|k: int|
            0 <= k < typefaces@.len() && typefaces@[k].id_view() == selected@
                && (forall|j: int| 0 <= j < k ==> typefaces@[j].id_view() != selected@)
                && r@ == typefaces@[k].label_view(),
        !typeface_ids(typefaces@).contains(selected@) && typefaces@.len() == 0
            ==> r@ == "No typefaces available"@,
        !typeface_ids(typefaces@).contains(selected@) && typefaces@.len() > 0
            ==> r@ == "Unavailable typeface: "@ + selected@,
{
    let want = selected.to_owned();
    let mut i: usize = 0;
    while i < typefaces.len()
        invariant
            i <= typefaces@.len(),
            want@ == selected@,
            forall|j: int| 0 <= j < i ==> typefaces@[j].id_view() != selected@,
        decreases typefaces@.len() - i,
    {
        if typefaces[i].id == want {
            assert(typeface_ids(typefaces@)[i as int] == selected@);
            return typefaces[i].label.clone();
        }
        i = i + 1;
    }
    assert(!typeface_ids(typefaces@).contains(selected@)) by {
        if typeface_ids(typefaces@).contains(selected@) {
            let k = choose|k: int| 0 <= k < typeface_ids(typefaces@).len() && typeface_ids(typefaces@)[k] == selected@;
            assert(typefaces@[k].id_view() == selected@);
        }
    }
    if typefaces.len() == 0 {
        "No typefaces available".to_owned()
    } else {
        let mut s = "Unavailable typeface: ".to_owned();
        s.append(selected);
        s
    }
}

} // verus!
