//! `nude container diff`: filesystem changes to a container since it started.
use vstd::prelude::*;

use crate::fields::field;
use crate::value::{cell_named, names_of, Field, Val, ValV};

verus! {

/// How a path changed.
#[derive(Clone, Copy, PartialEq, Eq, Structural, Debug)]
pub enum ChangeKind {
    Modified,
    Added,
    Deleted,
}

/// A changed path.
pub struct FsChange {
    pub path: String,
    pub kind: ChangeKind,
}

pub open spec fn change_kind_name(kind: ChangeKind) -> Seq<char> {
    match kind {
        ChangeKind::Modified => "modified"@,
        ChangeKind::Added => "added"@,
        ChangeKind::Deleted => "deleted"@,
    }
}

pub fn change_kind(kind: ChangeKind) -> (v: Val)
    ensures
        v.model() == ValV::Str(change_kind_name(kind)),
{
    let s = match kind {
        ChangeKind::Modified => "modified",
        ChangeKind::Added => "added",
        ChangeKind::Deleted => "deleted",
    };
    Val::Str(String::from_str(s))
}

pub open spec fn diff_row_model(c: &FsChange) -> ValV {
    ValV::Record(seq![("path"@, ValV::Str(c.path@)), ("kind"@, ValV::Str(change_kind_name(c.kind)))])
}

pub fn diff_row(c: &FsChange) -> (v: Val)
    ensures
        v.model() == diff_row_model(c),
{
    let mut rec: Vec<Field> = Vec::new();
    rec.push(field("path", Val::Str(c.path.clone())));
    rec.push(field("kind", change_kind(c.kind)));
    let v = Val::Record(rec);
    proof {
        let m = v.model()->Record_0;
        assert(m[0] == (rec@[0].name@, rec@[0].value.model()));
        assert(m[1] == (rec@[1].name@, rec@[1].value.model()));
        assert(m =~= diff_row_model(c)->Record_0);
    }
    v
}

/// The table of changes: a row per change, in the daemon's order; none at all is no row.
pub open spec fn diff_table_model(changes: Option<Vec<FsChange>>) -> ValV {
    ValV::List(
        match changes {
            Some(cs) => Seq::new(cs@.len(), |i: int| diff_row_model(&cs@[i])),
            None => Seq::empty(),
        },
    )
}

/// The changes as a table; when the daemon reports none at all, an empty table, not an error.
pub fn diff_table(changes: &Option<Vec<FsChange>>) -> (v: Val)
    ensures
        v.model() == diff_table_model(*changes),
        v.model() is List,
        match changes {
            Some(cs) => v.model()->List_0.len() == cs@.len() && forall|i: int|
                0 <= i < cs@.len() ==> #[trigger] v.model()->List_0[i] == diff_row_model(&cs@[i]),
            None => v.model()->List_0.len() == 0,
        },
{
    let mut rows: Vec<Val> = Vec::new();
    match changes {
        None => {},
        Some(cs) => {
            let mut i: usize = 0;
            while i < cs.len()
                invariant
                    i <= cs@.len(),
                    rows@.len() == i,
                    forall|q: int| 0 <= q < i ==> (#[trigger] rows@[q]).model() == diff_row_model(&cs@[q]),
                decreases cs@.len() - i,
            {
                rows.push(diff_row(&cs[i]));
                i = i + 1;
            }
        },
    }
    let v = Val::List(rows);
    proof {
        if changes is Some {
            let cs = changes->0;
            assert forall|q: int| 0 <= q < cs@.len() implies #[trigger] v.model()->List_0[q]
                == diff_row_model(&cs@[q]) by {
                assert(v.model()->List_0[q] == rows@[q].model());
            }
            assert(v.model()->List_0 =~= diff_table_model(*changes)->List_0);
        } else {
            assert(v.model()->List_0 =~= diff_table_model(*changes)->List_0);
        }
    }
    v
}


/// A change row holds primitive cells only.
pub proof fn law_diff_rows_are_primitive(c: &FsChange, i: int)
    requires
        0 <= i < diff_row_model(c)->Record_0.len(),
    ensures
        diff_row_model(c)->Record_0[i].1.is_primitive(),
{
    let r = diff_row_model(c)->Record_0;
    assert(r.len() == 2);
}

/// A change row holds, under these names and in this order, the changed path and how it changed:
/// `added` for an added path, `deleted` for a deleted one, `modified` for a modified one.
pub proof fn law_diff_cells(c: &FsChange)
    ensures
        names_of(diff_row_model(c)->Record_0) == seq!["path"@, "kind"@],
        cell_named(diff_row_model(c)->Record_0, "path"@) == Some(ValV::Str(c.path@)),
        c.kind == ChangeKind::Added ==> cell_named(diff_row_model(c)->Record_0, "kind"@) == Some(
            ValV::Str("added"@),
        ),
        c.kind == ChangeKind::Deleted ==> cell_named(diff_row_model(c)->Record_0, "kind"@) == Some(
            ValV::Str("deleted"@),
        ),
        c.kind == ChangeKind::Modified ==> cell_named(diff_row_model(c)->Record_0, "kind"@) == Some(
            ValV::Str("modified"@),
        ),
{
    let row = diff_row_model(c)->Record_0;
    assert(names_of(row) =~= seq!["path"@, "kind"@]);
    reveal_strlit("path");
    reveal_strlit("kind");
    assert("path"@.len() == 4);
    assert("path"@[0] != "kind"@[0]);
    reveal_with_fuel(cell_named, 3);
}

/// Different kinds of change have different names.
pub proof fn law_kind_names_differ(a: ChangeKind, b: ChangeKind)
    ensures
        a != b ==> change_kind_name(a) != change_kind_name(b),
{
    reveal_strlit("modified");
    reveal_strlit("added");
    reveal_strlit("deleted");
    assert("modified"@.len() == 8);
    assert("added"@.len() == 5);
    assert("deleted"@.len() == 7);
}

/// The diff table has one row per reported change, in the daemon's order, each holding that
/// change; when the daemon reports none at all, the table is empty.
pub proof fn law_diff_table(changes: Option<Vec<FsChange>>, i: int)
    ensures
        diff_table_model(changes) is List,
        changes is None ==> diff_table_model(changes)->List_0.len() == 0,
        changes is Some ==> diff_table_model(changes)->List_0.len() == changes->0@.len(),
        changes is Some && 0 <= i < changes->0@.len() ==> diff_table_model(changes)->List_0[i]
            == ValV::Record(
            seq![
                ("path"@, ValV::Str(changes->0@[i].path@)),
                ("kind"@, ValV::Str(change_kind_name(changes->0@[i].kind))),
            ],
        ),
{
}

} // verus!
