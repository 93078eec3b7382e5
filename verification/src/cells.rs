//! Typing the raw text of a `ps` cell.
use vstd::prelude::*;

use crate::columns::Cell;
use crate::fields::{date_model, date_or_nothing};
use crate::numbers::{
    clamp_i64, float_text, int_text, is_float_text, kib_to_bytes, millis_as_nanos,
    millis_to_nanos, parse_i64,
};
use crate::text::{chars_eq, chars_of};
use crate::value::{
    in_date_range, instant_before, instant_before_facts, instant_before_of, is_leap, stamp_nanos,
    Stamp, Val, ValV,
};

verus! {

/// The process state that the first letter of `STAT` names; the letters after it are modifier
/// flags. Case matters: `t` (stopped by a tracer) is not `T` (stopped).
pub open spec fn state_name(c: char) -> Option<Seq<char>> {
    if c == 'R' {
        Some("running"@)
    } else if c == 'S' {
        Some("sleeping"@)
    } else if c == 'D' {
        Some("waiting"@)
    } else if c == 'I' {
        Some("idle"@)
    } else if c == 'T' {
        Some("stopped"@)
    } else if c == 't' {
        Some("tracing"@)
    } else if c == 'Z' {
        Some("zombie"@)
    } else if c == 'X' {
        Some("dead"@)
    } else {
        None
    }
}

/// The typed value of a cell of a kind that is read from its text alone: any kind but `Duration`
/// and `Started`, which are read from the span that the text reports.
pub open spec fn plain_cell(cell: Cell, raw: Seq<char>) -> ValV {
    match cell {
        Cell::Str => ValV::Str(raw),
        Cell::Int => match int_text(raw) {
            Some(n) => ValV::Int(n),
            None => ValV::Nothing,
        },
        Cell::Float => if float_text(raw) {
            ValV::FloatText(raw)
        } else {
            ValV::Nothing
        },
        Cell::Kib => match int_text(raw) {
            Some(kib) => ValV::Filesize(clamp_i64(kib * 1024)),
            None => ValV::Nothing,
        },
        Cell::State => if raw.len() > 0 {
            match state_name(raw[0]) {
                Some(name) => ValV::Str(name),
                None => ValV::Nothing,
            }
        } else {
            ValV::Nothing
        },
        Cell::Tty => if raw == "?"@ || raw == "-"@ {
            ValV::Nothing
        } else {
            ValV::Str(raw)
        },
        Cell::Duration | Cell::Started => ValV::Nothing,
    }
}

/// What a `Duration` cell holds, `elapsed` being the span its text reports in milliseconds
/// (`None` where the text reports none): that span in nanoseconds, or 0 where they overflow an
/// `i64`; nothing where there is no span.
pub open spec fn duration_model(elapsed: Option<i64>) -> ValV {
    match elapsed {
        Some(ms) => ValV::Duration(
            match millis_as_nanos(ms as int) {
                Some(ns) => ns,
                None => 0,
            },
        ),
        None => ValV::Nothing,
    }
}

/// What a `Started` cell holds, `elapsed` being the span its text reports in milliseconds: the
/// instant that long before `now`, where it can be a date; nothing otherwise.
pub open spec fn started_model(elapsed: Option<i64>, now: Stamp) -> ValV {
    match elapsed {
        Some(ms) => date_model(instant_before_of(now, ms)),
        None => ValV::Nothing,
    }
}

/// The typed value of a cell of kind `cell` with text `raw`, `elapsed` being the span the text
/// reports in milliseconds and `now` the present.
pub open spec fn cell_model(cell: Cell, raw: Seq<char>, elapsed: Option<i64>, now: Stamp) -> ValV {
    match cell {
        Cell::Duration => duration_model(elapsed),
        Cell::Started => started_model(elapsed, now),
        _ => plain_cell(cell, raw),
    }
}

/// `v` is what a cell of kind `cell` holds, with what is known of the instant a `Started` cell
/// holds.
pub open spec fn cell_ok(cell: Cell, raw: Seq<char>, elapsed: Option<i64>, now: Stamp, v: ValV) -> bool {
    &&& v == cell_model(cell, raw, elapsed, now)
    &&& (cell == Cell::Started && elapsed is Some) ==> instant_before_facts(
        now,
        elapsed->0,
        instant_before_of(now, elapsed->0),
    )
}

/// A `Duration` cell of a span of `elapsed` milliseconds.
pub fn duration_cell(elapsed: Option<i64>) -> (v: Val)
    ensures
        v.model() == duration_model(elapsed),
{
    match elapsed {
        Some(ms) => {
            let ns = match millis_to_nanos(ms) {
                Some(ns) => ns,
                None => 0,
            };
            Val::Duration(ns)
        },
        None => Val::Nothing,
    }
}

/// A `Started` cell: the instant `elapsed` milliseconds before `now`.
pub fn started_cell(elapsed: Option<i64>, now: Stamp) -> (v: Val)
    ensures
        v.model() == started_model(elapsed, now),
        elapsed is Some ==> instant_before_facts(
            now,
            elapsed->0,
            instant_before_of(now, elapsed->0),
        ),
{
    match elapsed {
        Some(ms) => date_or_nothing(instant_before(now, ms)),
        None => Val::Nothing,
    }
}

fn state_value(c: char) -> (v: Val)
    ensures
        v.model() == match state_name(c) {
            Some(name) => ValV::Str(name),
            None => ValV::Nothing,
        },
{
    let name = if c == 'R' {
        "running"
    } else if c == 'S' {
        "sleeping"
    } else if c == 'D' {
        "waiting"
    } else if c == 'I' {
        "idle"
    } else if c == 'T' {
        "stopped"
    } else if c == 't' {
        "tracing"
    } else if c == 'Z' {
        "zombie"
    } else if c == 'X' {
        "dead"
    } else {
        return Val::Nothing;
    };
    Val::Str(String::from_str(name))
}

impl Cell {
    /// The typed value of a cell of this kind with the raw text `raw`; `elapsed` is the span that
    /// text reports, in milliseconds (`None` where it reports none), which `Duration` and
    /// `Started` cells hold, and `now` is the present.
    pub fn value(self, raw: &str, elapsed: Option<i64>, now: Stamp) -> (v: Val)
        ensures
            cell_ok(self, raw@, elapsed, now, v.model()),
    {
        match self {
            Cell::Str => Val::Str(String::from_str(raw)),
            Cell::Int => {
                let chars = chars_of(raw);
                match parse_i64(&chars) {
                    Some(n) => Val::Int(n),
                    None => Val::Nothing,
                }
            },
            Cell::Float => {
                let chars = chars_of(raw);
                if is_float_text(&chars) {
                    Val::FloatText(String::from_str(raw))
                } else {
                    Val::Nothing
                }
            },
            Cell::Kib => {
                let chars = chars_of(raw);
                match parse_i64(&chars) {
                    Some(kib) => Val::Filesize(kib_to_bytes(kib)),
                    None => Val::Nothing,
                }
            },
            Cell::Duration => duration_cell(elapsed),
            Cell::Started => started_cell(elapsed, now),
            Cell::State => {
                let chars = chars_of(raw);
                if chars.len() > 0 {
                    state_value(chars[0])
                } else {
                    Val::Nothing
                }
            },
            Cell::Tty => {
                let chars = chars_of(raw);
                if chars_eq(&chars, "?") || chars_eq(&chars, "-") {
                    Val::Nothing
                } else {
                    Val::Str(String::from_str(raw))
                }
            },
        }
    }
}

/// Every cell is a primitive value: never a list or a record.
pub proof fn law_cells_are_primitive(
    cell: Cell,
    raw: Seq<char>,
    elapsed: Option<i64>,
    now: Stamp,
    v: ValV,
)
    requires
        cell_ok(cell, raw, elapsed, now, v),
    ensures
        v.is_primitive(),
{
}

/// A process started the elapsed time before the present: its start plus the span `ELAPSED`
/// reports is the present. When the present is no leap second, there is a start exactly when the
/// span can be a `TimeDelta` and both instants can be dates; when it is a leap second that a date
/// can hold, there is one for a span under a second, and for a longer one exactly when the start
/// can be a date.
pub proof fn law_started_plus_elapsed_is_now(raw: Seq<char>, ms: i64, now: Stamp, v: ValV)
    requires
        cell_ok(Cell::Started, raw, Some(ms), now, v),
        !is_leap(now) || ms >= 0,
    ensures
        v is Date ==> stamp_nanos(v->Date_0) + ms * 1_000_000 == stamp_nanos(now),
        !is_leap(now) ==> (v is Date <==> (ms != i64::MIN && in_date_range(stamp_nanos(now))
            && in_date_range(stamp_nanos(now) - ms * 1_000_000))),
        is_leap(now) ==> (v is Date <==> (now.nanos < 2_000_000_000 && now.secs % 60 == 59
            && in_date_range(now.secs * 1_000_000_000) && (ms < 1000 || in_date_range(
            stamp_nanos(now) - ms * 1_000_000,
        )))),
{
}

/// Only the first letter of `STAT` decides the state.
pub proof fn law_state_reads_first_letter(a: Seq<char>, b: Seq<char>)
    requires
        a.len() > 0,
        b.len() > 0,
        a[0] == b[0],
    ensures
        plain_cell(Cell::State, a) == plain_cell(Cell::State, b),
{
}

/// What each kind of cell holds, for a cell with text `raw` that reports the span `elapsed`
/// (in milliseconds), `now` being the present: a string cell its text; an integer cell the
/// integer its text spells; a KiB cell that many KiB in bytes, held to the range of `i64`; a
/// float cell its text where it spells a float; a terminal cell its text, but nothing for `?` and
/// `-`; a duration cell the span in nanoseconds (0 where they overflow an `i64`); a start cell the
/// instant that span before `now`; and nothing where the text spells no such value.
pub proof fn law_cell_values(raw: Seq<char>, elapsed: Option<i64>, now: Stamp)
    ensures
        cell_model(Cell::Str, raw, elapsed, now) == ValV::Str(raw),
        cell_model(Cell::Int, raw, elapsed, now) == match int_text(raw) {
            Some(n) => ValV::Int(n),
            None => ValV::Nothing,
        },
        cell_model(Cell::Kib, raw, elapsed, now) == match int_text(raw) {
            Some(n) => ValV::Filesize(
                if n * 1024 > i64::MAX {
                    i64::MAX as int
                } else if n * 1024 < i64::MIN {
                    i64::MIN as int
                } else {
                    n * 1024
                },
            ),
            None => ValV::Nothing,
        },
        cell_model(Cell::Float, raw, elapsed, now) == if float_text(raw) {
            ValV::FloatText(raw)
        } else {
            ValV::Nothing
        },
        cell_model(Cell::Tty, raw, elapsed, now) == if raw == "?"@ || raw == "-"@ {
            ValV::Nothing
        } else {
            ValV::Str(raw)
        },
        cell_model(Cell::Duration, raw, elapsed, now) == match elapsed {
            Some(ms) => ValV::Duration(
                if i64::MIN <= ms * 1_000_000 <= i64::MAX {
                    ms * 1_000_000
                } else {
                    0
                },
            ),
            None => ValV::Nothing,
        },
        cell_model(Cell::Started, raw, elapsed, now) == match elapsed {
            Some(ms) => match instant_before_of(now, ms) {
                Some(t) => ValV::Date(t),
                None => ValV::Nothing,
            },
            None => ValV::Nothing,
        },
{
}

/// A state cell names the state that the first letter of `STAT` stands for, case mattering:
/// `R` running, `S` sleeping, `D` waiting, `I` idle, `T` stopped, `t` tracing, `Z` zombie, `X`
/// dead; nothing for an empty text or another letter.
pub proof fn law_state_names(raw: Seq<char>, elapsed: Option<i64>, now: Stamp)
    ensures
        ({
            let v = cell_model(Cell::State, raw, elapsed, now);
            &&& raw.len() == 0 ==> v == ValV::Nothing
            &&& raw.len() > 0 && raw[0] == 'R' ==> v == ValV::Str("running"@)
            &&& raw.len() > 0 && raw[0] == 'S' ==> v == ValV::Str("sleeping"@)
            &&& raw.len() > 0 && raw[0] == 'D' ==> v == ValV::Str("waiting"@)
            &&& raw.len() > 0 && raw[0] == 'I' ==> v == ValV::Str("idle"@)
            &&& raw.len() > 0 && raw[0] == 'T' ==> v == ValV::Str("stopped"@)
            &&& raw.len() > 0 && raw[0] == 't' ==> v == ValV::Str("tracing"@)
            &&& raw.len() > 0 && raw[0] == 'Z' ==> v == ValV::Str("zombie"@)
            &&& raw.len() > 0 && raw[0] == 'X' ==> v == ValV::Str("dead"@)
            &&& raw.len() > 0 && !(raw[0] == 'R' || raw[0] == 'S' || raw[0] == 'D' || raw[0] == 'I'
                || raw[0] == 'T' || raw[0] == 't' || raw[0] == 'Z' || raw[0] == 'X') ==> v
                == ValV::Nothing
        }),
{
}

} // verus!
