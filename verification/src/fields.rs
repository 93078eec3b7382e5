//! Cells built from the optional fields of the daemon's answers.
use vstd::prelude::*;

use crate::text::{chars_of, string_of, slice};
use crate::value::{in_date_range, Field, Stamp, Val, ValV};

verus! {

/// Docker's short form of an ID: its first twelve characters.
pub open spec fn short_id_of(id: Seq<char>) -> Seq<char> {
    if id.len() > 12 {
        id.take(12)
    } else {
        id
    }
}

pub fn short_id(id: &str) -> (r: String)
    ensures
        r@ == short_id_of(id@),
{
    let chars = chars_of(id);
    if chars.len() > 12 {
        let head = slice(&chars, 0, 12);
        string_of(&head)
    } else {
        String::from_str(id)
    }
}

pub open spec fn opt_str_model(o: Option<String>) -> ValV {
    match o {
        Some(s) => ValV::Str(s@),
        None => ValV::Nothing,
    }
}

/// A string cell, or nothing where the field is absent.
pub fn str_opt(o: &Option<String>) -> (v: Val)
    ensures
        v.model() == opt_str_model(*o),
{
    match o {
        Some(s) => Val::Str(s.clone()),
        None => Val::Nothing,
    }
}

pub open spec fn opt_short_id_model(o: Option<String>) -> ValV {
    match o {
        Some(s) => ValV::Str(short_id_of(s@)),
        None => ValV::Nothing,
    }
}

/// The short form of an optional ID.
pub fn short_id_opt(o: &Option<String>) -> (v: Val)
    ensures
        v.model() == opt_short_id_model(*o),
{
    match o {
        Some(s) => Val::Str(short_id(s.as_str())),
        None => Val::Nothing,
    }
}

pub open spec fn opt_bool_model(o: Option<bool>) -> ValV {
    match o {
        Some(b) => ValV::Bool(b),
        None => ValV::Nothing,
    }
}

pub fn opt_bool(o: Option<bool>) -> (v: Val)
    ensures
        v.model() == opt_bool_model(o),
{
    match o {
        Some(b) => Val::Bool(b),
        None => Val::Nothing,
    }
}

/// A date cell of an instant that may be missing.
pub open spec fn date_model(t: Option<Stamp>) -> ValV {
    match t {
        Some(t) => ValV::Date(t),
        None => ValV::Nothing,
    }
}

/// A date cell, or nothing where the instant is missing.
pub fn date_or_nothing(t: Option<Stamp>) -> (v: Val)
    ensures
        v.model() == date_model(t),
{
    match t {
        Some(t) => Val::Date(t),
        None => Val::Nothing,
    }
}

/// The instant and offset that an RFC 3339 timestamp denotes, as `DateTime::parse_from_rfc3339`
/// reads it.
pub uninterp spec fn rfc3339_instant(s: Seq<char>) -> Option<Stamp>;

/// Calls `DateTime::parse_from_rfc3339` and reads the instant, its sub-second nanoseconds and its
/// offset from UTC; the result is named by `rfc3339_instant` of the text, and a refused text gives
/// `None`.
#[verifier::external_body]
fn parse_rfc3339(s: &str) -> (r: Option<Stamp>)
    ensures
        r == rfc3339_instant(s@),
{
    chrono::DateTime::parse_from_rfc3339(s).ok().map(
        |dt| Stamp {
            secs: dt.timestamp(),
            nanos: dt.timestamp_subsec_nanos(),
            offset_secs: dt.offset().local_minus_utc(),
        },
    )
}

pub open spec fn opt_rfc3339_model(o: Option<String>) -> ValV {
    match o {
        Some(s) => date_model(rfc3339_instant(s@)),
        None => ValV::Nothing,
    }
}

/// A date cell from an optional RFC 3339 timestamp; nothing where it is absent or unreadable.
pub fn opt_rfc3339(o: &Option<String>) -> (v: Val)
    ensures
        v.model() == opt_rfc3339_model(*o),
{
    match o {
        Some(s) => date_or_nothing(parse_rfc3339(s.as_str())),
        None => Val::Nothing,
    }
}

/// The instant `secs` seconds after the Unix epoch.
///
/// Calls `DateTime::<Utc>::from_timestamp` with no sub-second part, then reads the instant back.
/// The contract claims that there is a result exactly when that instant lies in the range of
/// dates, and that it is that very instant, in UTC.
#[verifier::external_body]
pub(crate) fn instant_at(secs: i64) -> (r: Option<Stamp>)
    ensures
        r is Some <==> in_date_range(secs * 1_000_000_000),
        match r {
            Some(t) => t == Stamp { secs, nanos: 0, offset_secs: 0 },
            None => true,
        },
{
    chrono::DateTime::from_timestamp(secs, 0).map(
        |dt| Stamp {
            secs: dt.timestamp(),
            nanos: dt.timestamp_subsec_nanos(),
            offset_secs: 0,
        },
    )
}

/// What a date cell from a Unix timestamp holds: that instant, in UTC, when it lies in the range
/// of dates; nothing otherwise.
pub open spec fn epoch_date_model(secs: i64) -> ValV {
    if in_date_range(secs * 1_000_000_000) {
        ValV::Date(Stamp { secs, nanos: 0, offset_secs: 0 })
    } else {
        ValV::Nothing
    }
}

/// A date cell from seconds since the Unix epoch.
pub fn epoch_date(secs: i64) -> (v: Val)
    ensures
        v.model() == epoch_date_model(secs),
{
    date_or_nothing(instant_at(secs))
}

pub open spec fn str_list_model(items: Seq<String>) -> ValV {
    ValV::List(Seq::new(items.len(), |i: int| ValV::Str(items[i]@)))
}

/// A list of string cells.
pub fn str_list(items: &Vec<String>) -> (v: Val)
    ensures
        v.model() == str_list_model(items@),
{
    let mut out: Vec<Val> = Vec::new();
    let mut i: usize = 0;
    while i < items.len()
        invariant
            i <= items@.len(),
            out@.len() == i,
            forall|q: int| 0 <= q < i ==> (#[trigger] out@[q]).model() == ValV::Str(items@[q]@),
        decreases items@.len() - i,
    {
        out.push(Val::Str(items[i].clone()));
        i = i + 1;
    }
    let v = Val::List(out);
    proof {
        assert(v.model()->List_0 =~= str_list_model(items@)->List_0);
    }
    v
}

/// A pair of strings: a key and its value.
pub struct Pair {
    pub key: String,
    pub value: String,
}

pub open spec fn str_map_model(o: Option<Vec<Pair>>) -> ValV {
    match o {
        Some(pairs) => ValV::Record(
            Seq::new(pairs@.len(), |i: int| (pairs@[i].key@, ValV::Str(pairs@[i].value@))),
        ),
        None => ValV::Nothing,
    }
}

/// A record of string cells, one per key; nothing where the map is absent.
pub fn str_map(o: &Option<Vec<Pair>>) -> (v: Val)
    ensures
        v.model() == str_map_model(*o),
{
    match o {
        None => Val::Nothing,
        Some(pairs) => {
            let mut out: Vec<Field> = Vec::new();
            let mut i: usize = 0;
            while i < pairs.len()
                invariant
                    i <= pairs@.len(),
                    out@.len() == i,
                    forall|q: int|
                        0 <= q < i ==> (#[trigger] out@[q]).name@ == pairs@[q].key@ && out@[q].value.model()
                            == ValV::Str(pairs@[q].value@),
                decreases pairs@.len() - i,
            {
                out.push(
                    Field { name: pairs[i].key.clone(), value: Val::Str(pairs[i].value.clone()) },
                );
                i = i + 1;
            }
            let v = Val::Record(out);
            proof {
                assert(v.model()->Record_0 =~= str_map_model(*o)->Record_0);
            }
            v
        },
    }
}

/// A field named by a string literal.
pub fn field(name: &str, value: Val) -> (f: Field)
    ensures
        f.name@ == name@,
        f.value == value,
{
    Field { name: String::from_str(name), value }
}


/// A short ID is at most twelve characters long, begins the ID, and is the whole ID when that
/// is no longer.
pub proof fn law_short_id_is_a_prefix(id: Seq<char>)
    ensures
        short_id_of(id).len() == if id.len() > 12 {
            12
        } else {
            id.len()
        },
        short_id_of(id) == id.take(short_id_of(id).len() as int),
        id.len() <= 12 ==> short_id_of(id) == id,
{
    assert(id.take(id.len() as int) =~= id);
}

/// The cells of optional fields: a present text is a string cell, a present flag a boolean
/// cell, a present ID its short form, a present RFC 3339 timestamp the date it denotes (nothing
/// where it denotes none), and an absent field is nothing.
pub proof fn law_optional_cells(s: String, b: bool)
    ensures
        opt_str_model(Some(s)) == ValV::Str(s@),
        opt_str_model(None) == ValV::Nothing,
        opt_bool_model(Some(b)) == ValV::Bool(b),
        opt_bool_model(None) == ValV::Nothing,
        opt_short_id_model(Some(s)) == ValV::Str(short_id_of(s@)),
        opt_short_id_model(None) == ValV::Nothing,
        opt_rfc3339_model(None) == ValV::Nothing,
        opt_rfc3339_model(Some(s)) == match rfc3339_instant(s@) {
            Some(t) => ValV::Date(t),
            None => ValV::Nothing,
        },
{
}

/// A date cell holds the instant it is given, and nothing for none; a Unix timestamp is that
/// instant in UTC when it lies in the range of dates, nothing otherwise.
pub proof fn law_date_cells(t: Stamp, secs: i64)
    ensures
        date_model(Some(t)) == ValV::Date(t),
        date_model(None) == ValV::Nothing,
        in_date_range(secs * 1_000_000_000) ==> epoch_date_model(secs) == ValV::Date(
            Stamp { secs, nanos: 0, offset_secs: 0 },
        ),
        !in_date_range(secs * 1_000_000_000) ==> epoch_date_model(secs) == ValV::Nothing,
{
}

/// A list of strings is a list of string cells, item for item; a map of strings is a record
/// with one string cell per key, in order, and nothing where the map is absent.
pub proof fn law_collection_cells(items: Seq<String>, pairs: Vec<Pair>, i: int)
    ensures
        str_list_model(items) is List,
        str_list_model(items)->List_0.len() == items.len(),
        0 <= i < items.len() ==> str_list_model(items)->List_0[i] == ValV::Str(items[i]@),
        str_map_model(None) == ValV::Nothing,
        str_map_model(Some(pairs)) is Record,
        str_map_model(Some(pairs))->Record_0.len() == pairs@.len(),
        0 <= i < pairs@.len() ==> str_map_model(Some(pairs))->Record_0[i] == (
            pairs@[i].key@,
            ValV::Str(pairs@[i].value@),
        ),
{
}

} // verus!
