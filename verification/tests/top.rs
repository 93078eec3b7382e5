use nude::columns::ps_column;
use nude::elapsed::span_text;
use nude::top::{cell_texts, top_table, Reading, TopResponse};
use nude::value::{Field, Stamp, Val};

fn now() -> Stamp {
    let t = chrono::Utc::now();
    Stamp {
        secs: t.timestamp(),
        nanos: t.timestamp_subsec_nanos().min(999_999_999),
        offset_secs: 0,
    }
}

/// The span a `ps` cell reports, in milliseconds: the library splits the text into its numbers,
/// which are read as floats here, as the plugin reads them.
fn elapsed_ms(raw: &str) -> Option<i64> {
    let span = span_text(raw)?;
    let days = match &span.days {
        Some(days) => days.parse::<f64>().ok()?,
        None => 0.0,
    };
    let secs = span.fields.iter().try_fold(0.0, |acc, f| Some(acc * 60.0 + f.parse::<f64>().ok()?))?;
    chrono::TimeDelta::try_milliseconds(((days * 86_400.0 + secs) * 1000.0).round() as i64)
        .map(|d| d.num_milliseconds())
}

fn cell(title: &str, raw: &str) -> Val {
    let (_, cell) = ps_column(title);
    cell.value(raw, elapsed_ms(raw), now())
}

fn fields(row: &Val) -> &Vec<Field> {
    match row {
        Val::Record(fields) => fields,
        other => panic!("not a record: {:?}", other),
    }
}

fn columns(row: &Val) -> Vec<String> {
    fields(row).iter().map(|f| f.name.clone()).collect()
}

fn get<'a>(row: &'a Val, name: &str) -> &'a Val {
    &fields(row).iter().find(|f| f.name == name).unwrap().value
}

fn row(titles: &[&str], values: &[&str]) -> Val {
    let top = TopResponse {
        titles: Some(titles.iter().map(|s| (*s).to_string()).collect()),
        processes: Some(vec![values.iter().map(|s| (*s).to_string()).collect()]),
    };
    let readings: Vec<Reading> = cell_texts(&top)
        .into_iter()
        .flatten()
        .map(|text| {
            let ms = elapsed_ms(&text);
            Reading { text, ms }
        })
        .collect();
    match top_table(&top, &readings, now()) {
        Val::List(rows) => rows.into_iter().next().unwrap(),
        other => panic!("not a list: {:?}", other),
    }
}

fn as_str(v: &Val) -> &str {
    match v {
        Val::Str(s) => s.as_str(),
        other => panic!("not a string: {:?}", other),
    }
}

#[test]
fn types_each_known_column() {
    assert_eq!(cell("PID", "853"), Val::Int(853));
    match cell("%CPU", "1.5") {
        Val::FloatText(s) => assert_eq!(s.parse::<f64>().unwrap(), 1.5),
        other => panic!("not a float: {:?}", other),
    }
    assert_eq!(cell("RSS", "26272"), Val::Filesize(26_272 * 1024));
    assert_eq!(cell("TIME", "00:00:03"), Val::Duration(3_000_000_000));
    // Tracing-stop `t` is a different state from stopped `T`: case matters.
    assert_eq!(as_str(&cell("STAT", "Ssl")), "sleeping");
    assert_eq!(as_str(&cell("STAT", "t")), "tracing");
    assert_eq!(as_str(&cell("STAT", "T")), "stopped");
}

#[test]
fn started_is_now_minus_the_elapsed_seconds() {
    let now = now();
    let (_, cell) = ps_column("ELAPSED");
    match cell.value("60", elapsed_ms("60"), now) {
        Val::Date(started) => assert_eq!(now.secs - started.secs, 60),
        other => panic!("not a date: {:?}", other),
    }
}

#[test]
fn absent_values_become_nothing() {
    assert_eq!(cell("TT", "?"), Val::Nothing);
    assert_eq!(cell("PID", ""), Val::Nothing);
    assert_eq!(cell("TIME", "-"), Val::Nothing);
    assert_eq!(cell("STAT", ""), Val::Nothing);
}

#[test]
fn compact_rows_are_primitives_only() {
    let row = row(
        &["PID", "PPID", "USER", "%CPU", "%MEM", "RSS", "STAT", "ELAPSED", "TIME", "COMMAND"],
        &[
            "853",
            "835",
            "postgres",
            "0.0",
            "0.3",
            "26272",
            "Ss",
            "15107",
            "00:00:03",
            "postgres: walwriter",
        ],
    );
    assert_eq!(
        columns(&row),
        ["pid", "ppid", "user", "cpu", "mem", "rss", "state", "started", "cpu_time", "command"]
    );
    assert!(fields(&row)
        .iter()
        .all(|f| !matches!(f.value, Val::List(..) | Val::Record(..))));
}

#[test]
fn the_ef_fallback_is_typed_too() {
    // `ps -ef`: UID PID PPID C STIME TTY TIME CMD; `STIME` has no typed equivalent, so it falls
    // through as a string under its own name.
    let row = row(
        &["UID", "PID", "PPID", "C", "STIME", "TTY", "TIME", "CMD"],
        &["999", "853", "835", "0", "17:52", "?", "00:01:02", "postgres"],
    );
    assert_eq!(
        columns(&row),
        ["user", "pid", "ppid", "cpu", "stime", "tty", "cpu_time", "command"]
    );
    assert_eq!(get(&row, "cpu_time"), &Val::Duration(62_000_000_000));
    assert_eq!(as_str(get(&row, "stime")), "17:52");
}

#[test]
fn unknown_columns_keep_their_title_as_a_string() {
    let row = row(&["PID", "WCHAN"], &["1", "do_wait"]);
    assert_eq!(columns(&row), ["pid", "wchan"]);
}
