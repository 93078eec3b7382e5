//! `nude image history`: the layers of an image, one row each.
use vstd::prelude::*;

use crate::fields::{
    epoch_date, epoch_date_model, field, short_id, short_id_of, str_list, str_list_model,
};
use crate::text::{chars_eq, chars_of, slice, string_of};
use crate::value::{cell_named, names_of, Field, Val, ValV};

verus! {

/// One layer of an image's history, as the daemon reports it.
pub struct HistoryItem {
    pub id: String,
    /// Seconds since the Unix epoch.
    pub created: i64,
    pub created_by: String,
    pub tags: Vec<String>,
    /// Bytes.
    pub size: i64,
    pub comment: String,
}

/// An ID without its `sha256:` prefix.
pub open spec fn without_digest_prefix(id: Seq<char>) -> Seq<char> {
    if id.len() >= 7 && id.take(7) == "sha256:"@ {
        id.skip(7)
    } else {
        id
    }
}

/// A layer's ID: short, without its digest prefix; nothing for the empty ID and for the
/// `<missing>` that the daemon reports for layers built elsewhere.
pub open spec fn history_id_model(id: Seq<char>) -> ValV {
    let bare = without_digest_prefix(id);
    if bare.len() == 0 || bare == "<missing>"@ {
        ValV::Nothing
    } else {
        ValV::Str(short_id_of(bare))
    }
}

pub fn history_id(id: &str) -> (v: Val)
    ensures
        v.model() == history_id_model(id@),
{
    let chars = chars_of(id);
    let bare: Vec<char> = if chars.len() >= 7 && chars_eq(&slice(&chars, 0, 7), "sha256:") {
        slice(&chars, 7, chars.len())
    } else {
        chars
    };
    proof {
        if id@.len() >= 7 && id@.take(7) == "sha256:"@ {
            assert(bare@ =~= id@.skip(7));
        } else {
            assert(bare@ == id@);
        }
    }
    if bare.len() == 0 || chars_eq(&bare, "<missing>") {
        Val::Nothing
    } else {
        let s = string_of(&bare);
        Val::Str(short_id(s.as_str()))
    }
}

/// What a history row holds: the layer's ID, when it was created, by which command, its size and
/// comment, and, in the wide form only, its tags.
pub open spec fn history_row_ok(h: &HistoryItem, wide: bool, v: ValV) -> bool {
    &&& v is Record
    &&& v->Record_0.len() == (if wide {
        6int
    } else {
        5int
    })
    &&& v->Record_0[0] == ("id"@, history_id_model(h.id@))
    &&& v->Record_0[1].0 == "created"@ && v->Record_0[1].1 == epoch_date_model(h.created)
    &&& v->Record_0[2] == ("created_by"@, ValV::Str(h.created_by@))
    &&& v->Record_0[3] == ("size"@, ValV::Filesize(h.size as int))
    &&& v->Record_0[4] == ("comment"@, ValV::Str(h.comment@))
    &&& wide ==> v->Record_0[5] == ("tags"@, str_list_model(h.tags@))
}

pub fn history_row(h: &HistoryItem, wide: bool) -> (v: Val)
    ensures
        history_row_ok(h, wide, v.model()),
{
    let mut rec: Vec<Field> = Vec::new();
    rec.push(field("id", history_id(h.id.as_str())));
    rec.push(field("created", epoch_date(h.created)));
    rec.push(field("created_by", Val::Str(h.created_by.clone())));
    rec.push(field("size", Val::Filesize(h.size)));
    rec.push(field("comment", Val::Str(h.comment.clone())));
    if wide {
        rec.push(field("tags", str_list(&h.tags)));
    }
    let v = Val::Record(rec);
    proof {
        let m = v.model()->Record_0;
        assert(m[0] == (rec@[0].name@, rec@[0].value.model()));
        assert(m[1] == (rec@[1].name@, rec@[1].value.model()));
        assert(m[2] == (rec@[2].name@, rec@[2].value.model()));
        assert(m[3] == (rec@[3].name@, rec@[3].value.model()));
        assert(m[4] == (rec@[4].name@, rec@[4].value.model()));
        if wide {
            assert(m[5] == (rec@[5].name@, rec@[5].value.model()));
        }
    }
    v
}

/// The history table: a row per layer, in the daemon's order.
pub open spec fn history_table_ok(items: Seq<HistoryItem>, wide: bool, v: ValV) -> bool {
    &&& v is List
    &&& v->List_0.len() == items.len()
    &&& forall|i: int| 0 <= i < items.len() ==> history_row_ok(&items[i], wide, #[trigger] v->List_0[i])
}

/// The history table: a row per layer, in the daemon's order.
pub fn history_table(items: &Vec<HistoryItem>, wide: bool) -> (v: Val)
    ensures
        history_table_ok(items@, wide, v.model()),
        v.model() is List,
        v.model()->List_0.len() == items@.len(),
        forall|i: int|
            0 <= i < items@.len() ==> history_row_ok(&items@[i], wide, #[trigger] v.model()->List_0[i]),
{
    let mut rows: Vec<Val> = Vec::new();
    let mut i: usize = 0;
    while i < items.len()
        invariant
            i <= items@.len(),
            rows@.len() == i,
            forall|q: int| 0 <= q < i ==> history_row_ok(&items@[q], wide, (#[trigger] rows@[q]).model()),
        decreases items@.len() - i,
    {
        rows.push(history_row(&items[i], wide));
        i = i + 1;
    }
    let v = Val::List(rows);
    proof {
        assert forall|q: int| 0 <= q < items@.len() implies history_row_ok(
            &items@[q],
            wide,
            #[trigger] v.model()->List_0[q],
        ) by {
            assert(v.model()->List_0[q] == rows@[q].model());
        }
    }
    v
}

/// Compact history rows hold primitive cells only; the tags list is for the wide form.
pub proof fn law_compact_history_is_primitive(h: &HistoryItem, v: ValV, i: int)
    requires
        history_row_ok(h, false, v),
        0 <= i < v->Record_0.len(),
    ensures
        v->Record_0[i].1.is_primitive(),
{
}

/// A history row holds, under these names and in this order, the layer's ID (short, without its
/// digest prefix, nothing where the daemon has none), when it was created, the command that
/// created it, its size in bytes and its comment, and, in the wide form only, its tags.
pub proof fn law_history_cells(h: &HistoryItem, wide: bool, v: ValV)
    requires
        history_row_ok(h, wide, v),
    ensures
        names_of(v->Record_0) == seq!["id"@, "created"@, "created_by"@, "size"@, "comment"@] + (
        if wide {
            seq!["tags"@]
        } else {
            Seq::empty()
        }),
        cell_named(v->Record_0, "id"@) == Some(history_id_model(h.id@)),
        cell_named(v->Record_0, "created"@) == Some(epoch_date_model(h.created)),
        cell_named(v->Record_0, "created_by"@) == Some(ValV::Str(h.created_by@)),
        cell_named(v->Record_0, "size"@) == Some(ValV::Filesize(h.size as int)),
        cell_named(v->Record_0, "comment"@) == Some(ValV::Str(h.comment@)),
        wide ==> cell_named(v->Record_0, "tags"@) == Some(str_list_model(h.tags@)),
        !wide ==> cell_named(v->Record_0, "tags"@) is None,
{
    assert(names_of(v->Record_0) =~= seq!["id"@, "created"@, "created_by"@, "size"@, "comment"@] + (
    if wide {
        seq!["tags"@]
    } else {
        Seq::empty()
    }));
    reveal_strlit("id");
    reveal_strlit("created");
    reveal_strlit("created_by");
    reveal_strlit("size");
    reveal_strlit("comment");
    reveal_strlit("tags");
    assert("id"@.len() == 2);
    assert("created"@.len() == 7);
    assert("created_by"@.len() == 10);
    assert("size"@.len() == 4);
    assert("comment"@.len() == 7);
    assert("tags"@.len() == 4);
    assert("created"@[1] != "comment"@[1]);
    assert("size"@[0] != "tags"@[0]);
    assert(v->Record_0[0].0 == "id"@);
    assert(v->Record_0[1].0 == "created"@);
    assert(v->Record_0[2].0 == "created_by"@);
    assert(v->Record_0[3].0 == "size"@);
    assert(v->Record_0[4].0 == "comment"@);
    reveal_with_fuel(cell_named, 7);
    if wide {
        assert(v->Record_0[5].0 == "tags"@);
    }
}

/// A layer's ID cell: nothing for the empty ID and for `<missing>`, with or without the
/// `sha256:` prefix; otherwise the ID without that prefix, cut to twelve characters.
pub proof fn law_history_id(id: Seq<char>)
    ensures
        ({
            let bare = if id.len() >= 7 && id.take(7) == "sha256:"@ {
                id.skip(7)
            } else {
                id
            };
            &&& (bare.len() == 0 || bare == "<missing>"@) ==> history_id_model(id) == ValV::Nothing
            &&& !(bare.len() == 0 || bare == "<missing>"@) ==> history_id_model(id) == ValV::Str(
                bare.take(if bare.len() > 12 {
                    12
                } else {
                    bare.len() as int
                }),
            )
        }),
{
    assert(id.take(id.len() as int) =~= id);
    assert(id.skip(7).take(id.skip(7).len() as int) =~= id.skip(7));
}

/// The history table has one row per layer, in the daemon's order, each the row of that layer.
pub proof fn law_history_table(items: Seq<HistoryItem>, wide: bool, v: ValV, i: int)
    requires
        history_table_ok(items, wide, v),
        0 <= i < items.len(),
    ensures
        v->List_0.len() == items.len(),
        cell_named(v->List_0[i]->Record_0, "created_by"@) == Some(ValV::Str(items[i].created_by@)),
        cell_named(v->List_0[i]->Record_0, "comment"@) == Some(ValV::Str(items[i].comment@)),
        cell_named(v->List_0[i]->Record_0, "size"@) == Some(ValV::Filesize(items[i].size as int)),
        cell_named(v->List_0[i]->Record_0, "id"@) == Some(history_id_model(items[i].id@)),
{
    law_history_cells(&items[i], wide, v->List_0[i]);
}

} // verus!
