use nude::cells::{duration_cell, started_cell};
use nude::columns::{ps_column, Cell};
use nude::output::{output_format, OutputFormat};
use nude::top::{cell_texts, falls_back_to_default, top_ps_args, top_table, Reading, TopResponse};
use nude::value::{Stamp, Val};

fn now() -> Stamp {
    Stamp { secs: 1_700_000_000, nanos: 250, offset_secs: 0 }
}

#[test]
fn tty_placeholders_are_nothing() {
    assert_eq!(Cell::Tty.value("-", None, now()), Val::Nothing);
    assert_eq!(Cell::Tty.value("pts/0", None, now()), Val::Str("pts/0".to_string()));
}

#[test]
fn each_state_letter_has_its_name() {
    for (raw, name) in [
        ("R+", "running"),
        ("Ss", "sleeping"),
        ("D", "waiting"),
        ("I<", "idle"),
        ("T", "stopped"),
        ("t", "tracing"),
        ("Z", "zombie"),
        ("X", "dead"),
    ] {
        assert_eq!(Cell::State.value(raw, None, now()), Val::Str(name.to_string()));
    }
    assert_eq!(Cell::State.value("s", None, now()), Val::Nothing);
}

#[test]
fn kib_cells_are_filesizes_and_bad_numbers_nothing() {
    assert_eq!(Cell::Kib.value("4", None, now()), Val::Filesize(4096));
    assert_eq!(Cell::Kib.value("4k", None, now()), Val::Nothing);
    assert_eq!(Cell::Int.value("-3", None, now()), Val::Int(-3));
}

#[test]
fn started_subtracts_the_elapsed_time_exactly() {
    assert_eq!(
        Cell::Started.value("1-00:00:00", Some(86_400_000), now()),
        Val::Date(Stamp { secs: 1_700_000_000 - 86_400, nanos: 250, offset_secs: 0 })
    );
    assert_eq!(
        Cell::Started.value("0.5", Some(500), now()),
        Val::Date(Stamp { secs: 1_699_999_999, nanos: 500_000_250, offset_secs: 0 })
    );
    assert_eq!(Cell::Started.value("?", None, now()), Val::Nothing);
}

#[test]
fn a_negative_span_starts_in_the_future() {
    assert_eq!(
        started_cell(Some(-1_500), now()),
        Val::Date(Stamp { secs: 1_700_000_001, nanos: 500_000_250, offset_secs: 0 })
    );
}

#[test]
fn a_start_before_all_dates_is_nothing() {
    assert_eq!(Cell::Started.value("99999999999999999999", Some(i64::MAX), now()), Val::Nothing);
    assert_eq!(started_cell(Some(i64::MIN), now()), Val::Nothing);
}

#[test]
fn the_first_and_last_dates_are_dates() {
    let first = Stamp { secs: -8_334_601_228_800, nanos: 0, offset_secs: 0 };
    let last = Stamp { secs: 8_210_266_876_799, nanos: 999_999_999, offset_secs: 0 };
    assert_eq!(started_cell(Some(0), first), Val::Date(first));
    assert_eq!(started_cell(Some(0), last), Val::Date(last));
    assert_eq!(started_cell(Some(1), first), Val::Nothing);
    assert_eq!(started_cell(Some(-1), last), Val::Nothing);
    assert_eq!(
        started_cell(Some(1), last),
        Val::Date(Stamp { secs: 8_210_266_876_799, nanos: 998_999_999, offset_secs: 0 })
    );
}

#[test]
fn durations_too_long_for_nanoseconds_are_zero() {
    assert_eq!(
        Cell::Duration.value("9999999999999", Some(9_999_999_999_999_000), now()),
        Val::Duration(0)
    );
    assert_eq!(duration_cell(Some(-2)), Val::Duration(-2_000_000));
    assert_eq!(duration_cell(Some(9_223_372_036_854)), Val::Duration(9_223_372_036_854_000_000));
    assert_eq!(duration_cell(Some(9_223_372_036_855)), Val::Duration(0));
    assert_eq!(duration_cell(Some(-9_223_372_036_854)), Val::Duration(-9_223_372_036_854_000_000));
    assert_eq!(duration_cell(Some(-9_223_372_036_855)), Val::Duration(0));
    assert_eq!(duration_cell(None), Val::Nothing);
}

#[test]
fn floats_keep_their_text() {
    assert_eq!(Cell::Float.value("0.3", None, now()), Val::FloatText("0.3".to_string()));
    assert_eq!(Cell::Float.value("1E-3", None, now()), Val::FloatText("1E-3".to_string()));
    assert_eq!(Cell::Float.value("-Infinity", None, now()), Val::FloatText("-Infinity".to_string()));
    assert_eq!(Cell::Float.value("5.", None, now()), Val::FloatText("5.".to_string()));
}

#[test]
fn text_that_is_no_float_is_nothing() {
    for raw in ["", ".", "-", "1,5", "1e", "e5", "1.2.3", "++1", " 1", "infin"] {
        assert_eq!(Cell::Float.value(raw, None, now()), Val::Nothing, "{raw:?}");
    }
}

#[test]
fn every_float_text_is_read_by_f64() {
    for raw in ["0.3", "1E-3", "-Infinity", "5.", ".5e+2", "nan", "+7"] {
        match Cell::Float.value(raw, None, now()) {
            Val::FloatText(t) => assert!(t.parse::<f64>().is_ok(), "{t:?}"),
            other => panic!("{raw:?} gave {other:?}"),
        }
    }
}

#[test]
fn column_lookup_ignores_case_but_keeps_unknown_names() {
    assert_eq!(ps_column("stat"), ("state".to_string(), Cell::State));
    assert_eq!(ps_column("Wchan"), ("wchan".to_string(), Cell::Str));
    assert_eq!(ps_column(""), (String::new(), Cell::Str));
    assert_eq!(ps_column("Äbc"), ("äbc".to_string(), Cell::Str));
}

#[test]
fn top_uses_the_typed_formats_unless_told_otherwise() {
    assert_eq!(
        top_ps_args(None, OutputFormat::Compact).as_deref(),
        Some("-eo pid,ppid,user,pcpu,pmem,rss,stat,etimes,time,args")
    );
    assert_eq!(
        top_ps_args(None, OutputFormat::Wide).as_deref(),
        Some("-eo pid,ppid,pgid,user,pcpu,pmem,rss,vsz,stat,nice,nlwp,tty,etimes,time,args")
    );
    assert_eq!(top_ps_args(None, OutputFormat::Full), None);
    assert_eq!(top_ps_args(Some("aux"), OutputFormat::Full).as_deref(), Some("aux"));
}

#[test]
fn only_the_typed_format_falls_back_to_the_daemon_default() {
    assert!(falls_back_to_default(true, false, true));
    assert!(!falls_back_to_default(true, true, true));
    assert!(!falls_back_to_default(false, false, true));
    assert!(!falls_back_to_default(true, false, false));
}

#[test]
fn rows_share_their_columns_and_missing_values_are_blank() {
    let top = TopResponse {
        titles: Some(vec!["PID".to_string(), "CMD".to_string()]),
        processes: Some(vec![
            vec!["1".to_string(), "  init  ".to_string()],
            vec!["2".to_string()],
        ]),
    };
    let texts = cell_texts(&top);
    assert_eq!(texts, vec![vec!["1".to_string(), "init".to_string()], vec!["2".to_string(), String::new()]]);
    match top_table(&top, &vec![], now()) {
        Val::List(rows) => {
            assert_eq!(rows.len(), 2);
            match (&rows[0], &rows[1]) {
                (Val::Record(a), Val::Record(b)) => {
                    assert_eq!(a[1].name, b[1].name);
                    assert_eq!(a[1].value, Val::Str("init".to_string()));
                    assert_eq!(b[1].value, Val::Str("".to_string()));
                }
                _ => panic!("rows are records"),
            }
        }
        other => panic!("not a list: {:?}", other),
    }
}

#[test]
fn no_processes_make_an_empty_table() {
    let top = TopResponse { titles: None, processes: None };
    assert_eq!(cell_texts(&top), Vec::<Vec<String>>::new());
    assert_eq!(top_table(&top, &vec![], now()), Val::List(vec![]));
}

#[test]
fn lists_default_to_compact_and_single_objects_to_wide() {
    assert_eq!(output_format(None, false), Some(OutputFormat::Compact));
    assert_eq!(output_format(None, true), Some(OutputFormat::Wide));
    assert_eq!(output_format(Some("full"), true), Some(OutputFormat::Full));
    assert_eq!(output_format(Some("wide"), false), Some(OutputFormat::Wide));
    assert_eq!(output_format(Some("compact"), true), Some(OutputFormat::Compact));
    assert_eq!(output_format(Some("raw"), false), None);
}

#[test]
fn a_leap_second_present_still_has_a_start() {
    // 2016-12-31T23:59:60.5Z
    let leap = Stamp { secs: 1_483_228_799, nanos: 1_500_000_000, offset_secs: 0 };
    assert_eq!(
        started_cell(Some(60_000), leap),
        Val::Date(Stamp { secs: 1_483_228_740, nanos: 500_000_000, offset_secs: 0 })
    );
    assert_eq!(
        started_cell(Some(200), leap),
        Val::Date(Stamp { secs: 1_483_228_799, nanos: 1_300_000_000, offset_secs: 0 })
    );
    // No leap second ends a second that is not the last of a minute.
    let bad = Stamp { secs: 1_483_228_798, nanos: 1_500_000_000, offset_secs: 0 };
    assert_eq!(started_cell(Some(60_000), bad), Val::Nothing);
}

#[test]
fn sibling_rows_read_their_spans_from_one_table() {
    let top = TopResponse {
        titles: Some(vec!["ELAPSED".to_string(), "TIME".to_string()]),
        processes: Some(vec![
            vec!["60".to_string(), "00:00:03".to_string()],
            vec![" 60 ".to_string(), "x".to_string()],
        ]),
    };
    let readings = vec![
        Reading { text: "60".to_string(), ms: Some(60_000) },
        Reading { text: "00:00:03".to_string(), ms: Some(3_000) },
        Reading { text: "60".to_string(), ms: Some(1) },
    ];
    match top_table(&top, &readings, now()) {
        Val::List(rows) => match (&rows[0], &rows[1]) {
            (Val::Record(a), Val::Record(b)) => {
                let started = Val::Date(Stamp { secs: 1_699_999_940, nanos: 250, offset_secs: 0 });
                assert_eq!(a[0].value, started);
                assert_eq!(b[0].value, started);
                assert_eq!(a[1].value, Val::Duration(3_000_000_000));
                assert_eq!(b[1].value, Val::Nothing);
            }
            _ => panic!("rows are records"),
        },
        other => panic!("not a list: {:?}", other),
    }
}
