//! `nude container top`: the processes of a container as a typed table, and which `ps` columns to
//! ask the host for.
use vstd::prelude::*;

use crate::cells::{cell_model, cell_ok};
use crate::columns::{column_of, ps_column};
use crate::output::OutputFormat;
use crate::text::{chars_eq, chars_of, string_of, trim, trimmed};
use crate::value::{names_of, Field, Stamp, Val, ValV};

verus! {

/// The `ps` format asked for in compact mode. Every field is free of white space, so the daemon's
/// column split stays aligned, and `args`, the only one with spaces, is last, because the daemon
/// folds every overhanging field into the final column.
pub open spec fn ps_compact() -> Seq<char> {
    "-eo pid,ppid,user,pcpu,pmem,rss,stat,etimes,time,args"@
}

/// The `ps` format asked for in wide mode.
pub open spec fn ps_wide() -> Seq<char> {
    "-eo pid,ppid,pgid,user,pcpu,pmem,rss,vsz,stat,nice,nlwp,tty,etimes,time,args"@
}

/// The arguments for the host's `ps`: those the user gave, else the typed set of the output mode;
/// `full` shows `docker top` verbatim and so keeps the daemon's own default columns.
pub open spec fn ps_args_for(custom: Option<Seq<char>>, fmt: OutputFormat) -> Option<Seq<char>> {
    match custom {
        Some(c) => Some(c),
        None => match fmt {
            OutputFormat::Full => None,
            OutputFormat::Wide => Some(ps_wide()),
            OutputFormat::Compact => Some(ps_compact()),
        },
    }
}

pub fn top_ps_args(custom: Option<&str>, fmt: OutputFormat) -> (r: Option<String>)
    ensures
        match r {
            Some(a) => ps_args_for(
                match custom {
                    Some(c) => Some(c@),
                    None => None,
                },
                fmt,
            ) == Some(a@),
            None => ps_args_for(
                match custom {
                    Some(c) => Some(c@),
                    None => None,
                },
                fmt,
            ) is None,
        },
{
    match custom {
        Some(c) => Some(String::from_str(c)),
        None => match fmt {
            OutputFormat::Full => None,
            OutputFormat::Wide => Some(
                String::from_str(
                    "-eo pid,ppid,pgid,user,pcpu,pmem,rss,vsz,stat,nice,nlwp,tty,etimes,time,args",
                ),
            ),
            OutputFormat::Compact => Some(
                String::from_str("-eo pid,ppid,user,pcpu,pmem,rss,stat,etimes,time,args"),
            ),
        },
    }
}

/// Whether to ask again with the daemon's default columns after the first request failed: a host
/// `ps` without procps' `-o` (busybox, ...) refuses the typed format, but a format the user chose
/// is never replaced.
pub open spec fn falls_back(first_failed: bool, custom_given: bool, args_given: bool) -> bool {
    first_failed && !custom_given && args_given
}

pub fn falls_back_to_default(first_failed: bool, custom_given: bool, args_given: bool) -> (r:
    bool)
    ensures
        r == falls_back(first_failed, custom_given, args_given),
        r == (first_failed && !custom_given && args_given),
{
    first_failed && !custom_given && args_given
}

/// What the daemon answers for the processes of a container.
pub struct TopResponse {
    /// The `ps` column titles.
    pub titles: Option<Vec<String>>,
    /// Each process: its values in the order of the titles.
    pub processes: Option<Vec<Vec<String>>>,
}

pub open spec fn strings_view(v: Seq<String>) -> Seq<Seq<char>> {
    v.map_values(|s: String| s@)
}

impl TopResponse {
    pub open spec fn titles_view(&self) -> Seq<Seq<char>> {
        match self.titles {
            Some(t) => strings_view(t@),
            None => Seq::empty(),
        }
    }

    pub open spec fn processes_view(&self) -> Seq<Seq<Seq<char>>> {
        match self.processes {
            Some(p) => p@.map_values(|row: Vec<String>| strings_view(row@)),
            None => Seq::empty(),
        }
    }
}

/// The text of cell `i` of a process: trimmed, and empty where the process has no such value.
pub open spec fn raw_cell(process: Seq<Seq<char>>, i: int) -> Seq<char> {
    if 0 <= i < process.len() {
        trimmed(process[i])
    } else {
        Seq::empty()
    }
}

/// The span, in milliseconds, that a cell's text reports: `None` where it reports none.
pub struct Reading {
    pub text: String,
    pub ms: Option<i64>,
}

/// The span that `text` reports according to `readings`: that of the first entry for `text`;
/// `None` where there is none.
pub open spec fn reading_of(readings: Seq<Reading>, text: Seq<char>) -> Option<i64>
    decreases readings.len(),
{
    if readings.len() == 0 {
        None
    } else if readings[0].text@ == text {
        readings[0].ms
    } else {
        reading_of(readings.drop_first(), text)
    }
}

/// A row of the table: one column per title, named and typed by it; `readings` give the spans
/// that the texts of the cells report.
pub open spec fn row_ok(
    row: ValV,
    titles: Seq<Seq<char>>,
    process: Seq<Seq<char>>,
    readings: Seq<Reading>,
    now: Stamp,
) -> bool {
    &&& row is Record
    &&& row->Record_0.len() == titles.len()
    &&& forall|i: int|
        0 <= i < titles.len() ==> {
            &&& (#[trigger] row->Record_0[i]).0 == column_of(titles[i]).0
            &&& cell_ok(
                column_of(titles[i]).1,
                raw_cell(process, i),
                reading_of(readings, raw_cell(process, i)),
                now,
                row->Record_0[i].1,
            )
        }
}

/// The table for `top`: a row per process, typed column by column; `readings` give the span that
/// the text of each cell reports, and `now` is the one reference instant for the whole table, so
/// sibling rows agree on `started`.
pub open spec fn top_table_ok(top: &TopResponse, readings: Seq<Reading>, now: Stamp, v: ValV) -> bool {
    &&& v is List
    &&& v->List_0.len() == top.processes_view().len()
    &&& forall|r: int|
        0 <= r < v->List_0.len() ==> row_ok(
            #[trigger] v->List_0[r],
            top.titles_view(),
            top.processes_view()[r],
            readings,
            now,
        )
}

/// The span that `text` reports according to `readings`.
fn lookup_reading(readings: &Vec<Reading>, text: &str) -> (r: Option<i64>)
    ensures
        r == reading_of(readings@, text@),
{
    let chars = chars_of(text);
    let mut i: usize = 0;
    assert(readings@.skip(0) =~= readings@);
    while i < readings.len()
        invariant
            i <= readings@.len(),
            chars@ == text@,
            reading_of(readings@.skip(i as int), text@) == reading_of(readings@, text@),
        decreases readings@.len() - i,
    {
        proof {
            assert(readings@.skip(i as int).drop_first() =~= readings@.skip(i + 1));
            assert(readings@.skip(i as int)[0] == readings@[i as int]);
        }
        if chars_eq(&chars, readings[i].text.as_str()) {
            return readings[i].ms;
        }
        i = i + 1;
    }
    None
}

/// The trimmed text of each cell, one row per process and one entry per title.
pub open spec fn cell_texts_ok(top: &TopResponse, texts: Seq<Seq<Seq<char>>>) -> bool {
    &&& texts.len() == top.processes_view().len()
    &&& forall|r: int|
        0 <= r < texts.len() ==> {
            &&& (#[trigger] texts[r]).len() == top.titles_view().len()
            &&& forall|i: int|
                0 <= i < top.titles_view().len() ==> #[trigger] texts[r][i] == raw_cell(
                    top.processes_view()[r],
                    i,
                )
        }
}

fn raw_text(process: &Vec<String>, i: usize) -> (raw: String)
    ensures
        raw@ == raw_cell(strings_view(process@), i as int),
{
    if i < process.len() {
        let chars = chars_of(process[i].as_str());
        let t = trim(&chars);
        proof {
            assert(strings_view(process@)[i as int] == process@[i as int]@);
        }
        string_of(&t)
    } else {
        String::new()
    }
}

fn top_row(titles: &Vec<String>, process: &Vec<String>, readings: &Vec<Reading>, now: Stamp) -> (v:
    Val)
    ensures
        row_ok(v.model(), strings_view(titles@), strings_view(process@), readings@, now),
{
    let ghost ts = strings_view(titles@);
    let ghost ps = strings_view(process@);
    let mut fields: Vec<Field> = Vec::new();
    let mut i: usize = 0;
    while i < titles.len()
        invariant
            ts == strings_view(titles@),
            ps == strings_view(process@),
            i <= titles@.len(),
            fields@.len() == i,
            forall|q: int|
                0 <= q < i ==> {
                    &&& (#[trigger] fields@[q]).name@ == column_of(ts[q]).0
                    &&& cell_ok(
                        column_of(ts[q]).1,
                        raw_cell(ps, q),
                        reading_of(readings@, raw_cell(ps, q)),
                        now,
                        fields@[q].value.model(),
                    )
                },
        decreases titles@.len() - i,
    {
        let (col, cell) = ps_column(titles[i].as_str());
        let raw = raw_text(process, i);
        let reading = lookup_reading(readings, raw.as_str());
        proof {
            assert(ts[i as int] == titles@[i as int]@);
        }
        let value = cell.value(raw.as_str(), reading, now);
        fields.push(Field { name: col, value });
        i = i + 1;
    }
    let v = Val::Record(fields);
    proof {
        let m = v.model();
        assert forall|q: int| 0 <= q < ts.len() implies {
            &&& (#[trigger] m->Record_0[q]).0 == column_of(ts[q]).0
            &&& cell_ok(
                column_of(ts[q]).1,
                raw_cell(ps, q),
                reading_of(readings@, raw_cell(ps, q)),
                now,
                m->Record_0[q].1,
            )
        } by {
            assert(m->Record_0[q] == (fields@[q].name@, fields@[q].value.model()));
        }
    }
    v
}

/// The trimmed text of each cell of each process, one entry per title: what the spans of the
/// `Duration` and `Started` cells are read from.
pub fn cell_texts(top: &TopResponse) -> (texts: Vec<Vec<String>>)
    ensures
        cell_texts_ok(top, texts@.map_values(|row: Vec<String>| strings_view(row@))),
{
    let empty_titles: Vec<String> = Vec::new();
    let titles: &Vec<String> = match &top.titles {
        Some(t) => t,
        None => &empty_titles,
    };
    let ghost ts = top.titles_view();
    let mut out: Vec<Vec<String>> = Vec::new();
    match &top.processes {
        None => {},
        Some(processes) => {
            let mut r: usize = 0;
            while r < processes.len()
                invariant
                    top.processes == Some(*processes),
                    strings_view(titles@) == ts,
                    ts == top.titles_view(),
                    r <= processes@.len(),
                    out@.len() == r,
                    forall|q: int|
                        0 <= q < r ==> {
                            &&& (#[trigger] out@[q])@.len() == ts.len()
                            &&& forall|i: int|
                                0 <= i < ts.len() ==> out@[q]@[i]@ == raw_cell(
                                    top.processes_view()[q],
                                    i,
                                )
                        },
                decreases processes@.len() - r,
            {
                let process = &processes[r];
                proof {
                    assert(top.processes_view()[r as int] == strings_view(process@));
                }
                let mut row: Vec<String> = Vec::new();
                let mut i: usize = 0;
                while i < titles.len()
                    invariant
                        strings_view(titles@) == ts,
                        top.processes_view()[r as int] == strings_view(process@),
                        i <= titles@.len(),
                        row@.len() == i,
                        forall|k: int|
                            0 <= k < i ==> (#[trigger] row@[k])@ == raw_cell(
                                top.processes_view()[r as int],
                                k,
                            ),
                    decreases titles@.len() - i,
                {
                    row.push(raw_text(process, i));
                    i = i + 1;
                }
                out.push(row);
                r = r + 1;
            }
        },
    }
    proof {
        let tv = out@.map_values(|row: Vec<String>| strings_view(row@));
        assert forall|q: int| 0 <= q < tv.len() implies {
            &&& (#[trigger] tv[q]).len() == ts.len()
            &&& forall|i: int|
                0 <= i < ts.len() ==> #[trigger] tv[q][i] == raw_cell(top.processes_view()[q], i)
        } by {
            assert(tv[q] == strings_view(out@[q]@));
            assert forall|i: int| 0 <= i < ts.len() implies #[trigger] tv[q][i] == raw_cell(
                top.processes_view()[q],
                i,
            ) by {
                assert(tv[q][i] == out@[q]@[i]@);
            }
        }
    }
    out
}

/// The processes of a container as a table: one row per process, one typed column per `ps`
/// title; `readings` give the span, in milliseconds, that the text of each cell reports.
pub fn top_table(top: &TopResponse, readings: &Vec<Reading>, now: Stamp) -> (v: Val)
    ensures
        top_table_ok(top, readings@, now, v.model()),
{
    let empty_titles: Vec<String> = Vec::new();
    let titles: &Vec<String> = match &top.titles {
        Some(t) => t,
        None => &empty_titles,
    };
    let mut rows: Vec<Val> = Vec::new();
    match &top.processes {
        None => {},
        Some(processes) => {
            let mut r: usize = 0;
            while r < processes.len()
                invariant
                    top.processes == Some(*processes),
                    strings_view(titles@) == top.titles_view(),
                    r <= processes@.len(),
                    rows@.len() == r,
                    forall|q: int|
                        0 <= q < r ==> row_ok(
                            (#[trigger] rows@[q]).model(),
                            top.titles_view(),
                            top.processes_view()[q],
                            readings@,
                            now,
                        ),
                decreases processes@.len() - r,
            {
                proof {
                    assert(top.processes_view()[r as int] == strings_view(processes@[r as int]@));
                }
                let row = top_row(titles, &processes[r], readings, now);
                rows.push(row);
                r = r + 1;
            }
        },
    }
    let v = Val::List(rows);
    proof {
        let m = v.model();
        assert(m->List_0.len() == top.processes_view().len());
        assert forall|q: int| 0 <= q < m->List_0.len() implies row_ok(
            #[trigger] m->List_0[q],
            top.titles_view(),
            top.processes_view()[q],
            readings@,
            now,
        ) by {
            assert(m->List_0[q] == rows@[q].model());
        }
    }
    v
}

/// The `ps` arguments: those the user gave, whatever the output mode; otherwise the compact
/// typed set for `compact`, the wide typed set for `wide`, and none (the daemon's default) for
/// `full`.
pub proof fn law_ps_args(c: Seq<char>, fmt: OutputFormat)
    ensures
        ps_args_for(Some(c), fmt) == Some(c),
        ps_args_for(None, OutputFormat::Compact) == Some(
            "-eo pid,ppid,user,pcpu,pmem,rss,stat,etimes,time,args"@,
        ),
        ps_args_for(None, OutputFormat::Wide) == Some(
            "-eo pid,ppid,pgid,user,pcpu,pmem,rss,vsz,stat,nice,nlwp,tty,etimes,time,args"@,
        ),
        ps_args_for(None, OutputFormat::Full) is None,
{
}

/// The daemon is asked again with its default columns only after a first request failed, only
/// when the user chose no format, and only when a typed format was asked for.
pub proof fn law_fallback(first_failed: bool, custom_given: bool, args_given: bool)
    ensures
        !first_failed ==> !falls_back(first_failed, custom_given, args_given),
        custom_given ==> !falls_back(first_failed, custom_given, args_given),
        !args_given ==> !falls_back(first_failed, custom_given, args_given),
        first_failed && !custom_given && args_given ==> falls_back(
            first_failed,
            custom_given,
            args_given,
        ),
{
}

/// The text of a cell is the process's value in that column with surrounding white space
/// removed, and empty where the process has no value there.
pub proof fn law_raw_cell(process: Seq<Seq<char>>, i: int)
    ensures
        0 <= i < process.len() ==> raw_cell(process, i) == trimmed(process[i]),
        !(0 <= i < process.len()) ==> raw_cell(process, i) == Seq::<char>::empty(),
{
}

/// The table has one row per process, in the daemon's order; cell `i` of a row is named after
/// title `i` and holds the value of that column's type read from the process's trimmed text in
/// that column, with the span that text reports.
pub proof fn law_top_table_cells(
    top: &TopResponse,
    readings: Seq<Reading>,
    now: Stamp,
    v: ValV,
    r: int,
    i: int,
)
    requires
        top_table_ok(top, readings, now, v),
        0 <= r < top.processes_view().len(),
        0 <= i < top.titles_view().len(),
    ensures
        v->List_0.len() == top.processes_view().len(),
        names_of(v->List_0[r]->Record_0) == top.titles_view().map_values(
            |t: Seq<char>| column_of(t).0,
        ),
        i < top.processes_view()[r].len() ==> v->List_0[r]->Record_0[i].1 == cell_model(
            column_of(top.titles_view()[i]).1,
            trimmed(top.processes_view()[r][i]),
            reading_of(readings, trimmed(top.processes_view()[r][i])),
            now,
        ),
        i >= top.processes_view()[r].len() ==> v->List_0[r]->Record_0[i].1 == cell_model(
            column_of(top.titles_view()[i]).1,
            Seq::empty(),
            reading_of(readings, Seq::empty()),
            now,
        ),
{
    assert(row_ok(v->List_0[r], top.titles_view(), top.processes_view()[r], readings, now));
    assert(names_of(v->List_0[r]->Record_0) =~= top.titles_view().map_values(
        |t: Seq<char>| column_of(t).0,
    ));
}

/// The span of a text is what the first entry for that text gives, and none where no entry is
/// for it.
pub proof fn law_reading_of(readings: Seq<Reading>, text: Seq<char>, j: int)
    ensures
        (0 <= j < readings.len() && readings[j].text@ == text && forall|k: int|
            0 <= k < j ==> (#[trigger] readings[k]).text@ != text) ==> reading_of(readings, text)
            == readings[j].ms,
        (forall|k: int| 0 <= k < readings.len() ==> (#[trigger] readings[k]).text@ != text)
            ==> reading_of(readings, text) is None,
    decreases readings.len(),
{
    if readings.len() > 0 {
        let rest = readings.drop_first();
        law_reading_of(rest, text, j - 1);
        if 0 < j < readings.len() && readings[j].text@ == text && forall|k: int|
            0 <= k < j ==> (#[trigger] readings[k]).text@ != text {
            assert(readings[0].text@ != text);
            assert(rest[j - 1] == readings[j]);
            assert forall|k: int| 0 <= k < j - 1 implies (#[trigger] rest[k]).text@ != text by {
                assert(rest[k] == readings[k + 1]);
            }
        }
        if forall|k: int| 0 <= k < readings.len() ==> (#[trigger] readings[k]).text@ != text {
            assert(readings[0].text@ != text);
            assert forall|k: int| 0 <= k < rest.len() implies (#[trigger] rest[k]).text@ != text by {
                assert(rest[k] == readings[k + 1]);
            }
        }
    }
}

/// Every row of the table has the same columns, named after the titles alone, whatever the
/// processes hold.
pub proof fn law_rows_share_their_columns(
    top: &TopResponse,
    readings: Seq<Reading>,
    now: Stamp,
    v: ValV,
    a: int,
    b: int,
    i: int,
)
    requires
        top_table_ok(top, readings, now, v),
        0 <= a < v->List_0.len(),
        0 <= b < v->List_0.len(),
        0 <= i < top.titles_view().len(),
    ensures
        v->List_0[a]->Record_0.len() == v->List_0[b]->Record_0.len(),
        v->List_0[a]->Record_0[i].0 == v->List_0[b]->Record_0[i].0,
{
    assert(row_ok(
        v->List_0[a],
        top.titles_view(),
        top.processes_view()[a],
        readings,
        now,
    ));
    assert(row_ok(
        v->List_0[b],
        top.titles_view(),
        top.processes_view()[b],
        readings,
        now,
    ));
    assert(v->List_0[a]->Record_0[i].0 == column_of(top.titles_view()[i]).0);
    assert(v->List_0[b]->Record_0[i].0 == column_of(top.titles_view()[i]).0);
}

/// The table holds primitive cells only: it suits `where`, `sort-by` and `select`.
pub proof fn law_top_rows_are_primitive(
    top: &TopResponse,
    readings: Seq<Reading>,
    now: Stamp,
    v: ValV,
    r: int,
    i: int,
)
    requires
        top_table_ok(top, readings, now, v),
        0 <= r < v->List_0.len(),
        0 <= i < v->List_0[r]->Record_0.len(),
    ensures
        v->List_0[r]->Record_0[i].1.is_primitive(),
{
    assert(row_ok(
        v->List_0[r],
        top.titles_view(),
        top.processes_view()[r],
        readings,
        now,
    ));
}

/// One reference instant serves the whole table: two rows whose cells in a column have the same
/// text hold the same value there; so rows whose `ELAPSED` reads the same agree on when they
/// started.
pub proof fn law_siblings_agree_on_started(
    top: &TopResponse,
    readings: Seq<Reading>,
    now: Stamp,
    v: ValV,
    a: int,
    b: int,
    i: int,
)
    requires
        top_table_ok(top, readings, now, v),
        0 <= a < v->List_0.len(),
        0 <= b < v->List_0.len(),
        0 <= i < top.titles_view().len(),
        raw_cell(top.processes_view()[a], i) == raw_cell(top.processes_view()[b], i),
    ensures
        v->List_0[a]->Record_0[i].1 == v->List_0[b]->Record_0[i].1,
        v->List_0[a]->Record_0[i].1 == cell_model(
            column_of(top.titles_view()[i]).1,
            raw_cell(top.processes_view()[a], i),
            reading_of(readings, raw_cell(top.processes_view()[a], i)),
            now,
        ),
{
    assert(row_ok(
        v->List_0[a],
        top.titles_view(),
        top.processes_view()[a],
        readings,
        now,
    ));
    assert(row_ok(
        v->List_0[b],
        top.titles_view(),
        top.processes_view()[b],
        readings,
        now,
    ));
}

} // verus!
