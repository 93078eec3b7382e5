use vstd::prelude::*;

verus! {

/// An instant with the offset it is shown in: seconds and nanoseconds since the Unix epoch.
#[derive(Clone, Copy, PartialEq, Eq, Structural, Debug)]
pub struct Stamp {
    pub secs: i64,
    pub nanos: u32,
    pub offset_secs: i32,
}

/// A typed cell of a shell table.
#[derive(PartialEq, Debug)]
pub enum Val {
    /// No value: the field is absent or its text does not read as the column's type.
    Nothing,
    Bool(bool),
    Int(i64),
    /// A float, as the text that `f64::from_str` reads it from.
    FloatText(String),
    /// Bytes.
    Filesize(i64),
    /// Nanoseconds.
    Duration(i64),
    Date(Stamp),
    Str(String),
    List(Vec<Val>),
    /// Named cells, in order.
    Record(Vec<Field>),
}

/// A named cell of a record.
#[derive(PartialEq, Debug)]
pub struct Field {
    pub name: String,
    pub value: Val,
}

/// The mathematical content of a cell: strings as sequences of characters.
pub enum ValV {
    Nothing,
    Bool(bool),
    Int(int),
    FloatText(Seq<char>),
    Filesize(int),
    Duration(int),
    Date(Stamp),
    Str(Seq<char>),
    List(Seq<ValV>),
    Record(Seq<(Seq<char>, ValV)>),
}

impl Val {
    pub open spec fn model(self) -> ValV
        decreases self,
    {
        match self {
            Val::Nothing => ValV::Nothing,
            Val::Bool(b) => ValV::Bool(b),
            Val::Int(n) => ValV::Int(n as int),
            Val::FloatText(s) => ValV::FloatText(s@),
            Val::Filesize(n) => ValV::Filesize(n as int),
            Val::Duration(n) => ValV::Duration(n as int),
            Val::Date(d) => ValV::Date(d),
            Val::Str(s) => ValV::Str(s@),
            Val::List(items) => ValV::List(Seq::new(items@.len(), |i: int| {
                if 0 <= i < items@.len() { items@[i].model() } else { ValV::Nothing }
            })),
            Val::Record(fields) => ValV::Record(Seq::new(fields@.len(), |i: int| {
                if 0 <= i < fields@.len() { (fields@[i].name@, fields@[i].value.model()) } else { (Seq::empty(), ValV::Nothing) }
            })),
        }
    }
}


impl ValV {
    /// A value with no nested list or record.
    pub open spec fn is_primitive(self) -> bool {
        !(self is List) && !(self is Record)
    }
}

/// The names of a record's cells, in order.
pub open spec fn names_of(rec: Seq<(Seq<char>, ValV)>) -> Seq<Seq<char>> {
    rec.map_values(|p: (Seq<char>, ValV)| p.0)
}

/// The cell of a record named `name`: the first one so named; `None` where there is none.
pub open spec fn cell_named(rec: Seq<(Seq<char>, ValV)>, name: Seq<char>) -> Option<ValV>
    decreases rec.len(),
{
    if rec.len() == 0 {
        None
    } else if rec[0].0 == name {
        Some(rec[0].1)
    } else {
        cell_named(rec.drop_first(), name)
    }
}

/// A cell whose name no earlier cell has is the cell of that name.
pub proof fn lemma_cell_named_at(rec: Seq<(Seq<char>, ValV)>, i: int)
    requires
        0 <= i < rec.len(),
        forall|j: int| 0 <= j < i ==> (#[trigger] rec[j]).0 != rec[i].0,
    ensures
        cell_named(rec, rec[i].0) == Some(rec[i].1),
    decreases i,
{
    if i > 0 {
        let rest = rec.drop_first();
        assert forall|j: int| 0 <= j < i - 1 implies (#[trigger] rest[j]).0 != rest[i - 1].0 by {
            assert(rest[j] == rec[j + 1]);
        }
        lemma_cell_named_at(rest, i - 1);
        assert(rest[i - 1] == rec[i]);
    }
}

/// Nanoseconds since the Unix epoch of an instant.
pub open spec fn stamp_nanos(t: Stamp) -> int {
    t.secs * 1_000_000_000 + t.nanos
}

/// The first instant that a date can hold, in nanoseconds since the Unix epoch: the start of
/// January 1 of the year -262143.
pub open spec fn first_date_nanos() -> int {
    -8_334_601_228_800_000_000_000
}

/// The last instant that a date can hold, in nanoseconds since the Unix epoch: the end of
/// December 31 of the year 262142.
pub open spec fn last_date_nanos() -> int {
    8_210_266_876_799_999_999_999
}

/// Instants, in nanoseconds since the Unix epoch, that a date can hold.
pub open spec fn in_date_range(nanos: int) -> bool {
    first_date_nanos() <= nanos <= last_date_nanos()
}

/// The instant `ms` milliseconds before `now`, as `DateTime::checked_sub_signed` gives it.
pub uninterp spec fn instant_before_of(now: Stamp, ms: i64) -> Option<Stamp>;

/// `now` is a leap second: its nanoseconds run past one second.
pub open spec fn is_leap(now: Stamp) -> bool {
    now.nanos >= 1_000_000_000
}

/// What is known of the instant `ms` milliseconds before `now`.
///
/// When `now` is no leap second: there is one exactly when the span can be built (it is not
/// `i64::MIN` milliseconds) and both instants lie in the range of dates; it is exactly `ms`
/// milliseconds earlier, in UTC, and no leap second either.
///
/// When `now` is a leap second and the span is not negative: `now` must be a leap second that a
/// date can hold (under two seconds of nanoseconds, in the last second of a minute, on a day in
/// the range of dates); then there is a result for a span under a second, and for a longer one
/// exactly when the earlier instant lies in the range of dates; it is exactly `ms` milliseconds
/// earlier, in UTC.
pub open spec fn instant_before_facts(now: Stamp, ms: i64, r: Option<Stamp>) -> bool {
    &&& !is_leap(now) ==> (r is Some <==> ms != i64::MIN && in_date_range(stamp_nanos(now))
        && in_date_range(stamp_nanos(now) - ms * 1_000_000))
    &&& (is_leap(now) && ms >= 0) ==> (r is Some <==> now.nanos < 2_000_000_000 && now.secs % 60
        == 59 && in_date_range(now.secs * 1_000_000_000) && (ms < 1000 || in_date_range(
        stamp_nanos(now) - ms * 1_000_000,
    )))
    &&& (!is_leap(now) || ms >= 0) ==> match r {
        Some(t) => stamp_nanos(t) == stamp_nanos(now) - ms * 1_000_000 && t.offset_secs == 0,
        None => true,
    }
    &&& !is_leap(now) ==> match r {
        Some(t) => t.nanos < 1_000_000_000,
        None => true,
    }
}

/// The instant `ms` milliseconds before `now`.
///
/// Calls `DateTime::<Utc>::checked_sub_signed`, after `DateTime::from_timestamp` and
/// `TimeDelta::try_milliseconds` build its operands (either failing gives `None`), and reads the
/// result back with `timestamp` and `timestamp_subsec_nanos`. The result is named by
/// `instant_before_of` of the arguments; `instant_before_facts` says what is known of it. For a
/// negative span from a leap second, whether there is a result and what it is are left unsaid.
#[verifier::external_body]
pub(crate) fn instant_before(now: Stamp, ms: i64) -> (r: Option<Stamp>)
    ensures
        r == instant_before_of(now, ms),
        instant_before_facts(now, ms, r),
{
    let start = chrono::DateTime::from_timestamp(now.secs, now.nanos)?;
    let then = start.checked_sub_signed(chrono::TimeDelta::try_milliseconds(ms)?)?;
    Some(Stamp { secs: then.timestamp(), nanos: then.timestamp_subsec_nanos(), offset_secs: 0 })
}

}
