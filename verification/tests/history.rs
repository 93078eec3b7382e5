use nude::fields::{epoch_date, short_id};
use nude::history::{history_id, history_row, history_table, HistoryItem};
use nude::value::{Stamp, Val};

fn item(id: &str) -> HistoryItem {
    HistoryItem {
        id: id.to_string(),
        created: 1_700_000_000,
        created_by: "/bin/sh -c #(nop) CMD [\"bash\"]".to_string(),
        tags: vec!["postgres:16".to_string(), "postgres:latest".to_string()],
        size: 74_800_000,
        comment: "buildkit.dockerfile.v0".to_string(),
    }
}

fn names(row: &Val) -> Vec<String> {
    match row {
        Val::Record(fields) => fields.iter().map(|f| f.name.clone()).collect(),
        other => panic!("not a record: {:?}", other),
    }
}

#[test]
fn layer_ids_lose_their_digest_prefix_and_are_shortened() {
    assert_eq!(
        history_id("sha256:3b7f9c2d4e5a6b7c8d9e0f1a2b3c4d5e6f7a8b9c0d1e2f3a4b5c6d7e8f9a0b1c"),
        Val::Str("3b7f9c2d4e5a".to_string())
    );
    assert_eq!(history_id("abc"), Val::Str("abc".to_string()));
}

#[test]
fn missing_layer_ids_become_nothing() {
    assert_eq!(history_id("<missing>"), Val::Nothing);
    assert_eq!(history_id(""), Val::Nothing);
    assert_eq!(history_id("sha256:"), Val::Nothing);
}

#[test]
fn short_ids_keep_twelve_characters() {
    assert_eq!(short_id("0123456789abcdef"), "0123456789ab");
    assert_eq!(short_id("0123"), "0123");
}

#[test]
fn compact_history_rows_have_no_tags() {
    let row = history_row(&item("sha256:aaaaaaaaaaaaaaaaaaaa"), false);
    assert_eq!(names(&row), ["id", "created", "created_by", "size", "comment"]);
    match &row {
        Val::Record(fields) => {
            assert_eq!(fields[0].value, Val::Str("aaaaaaaaaaaa".to_string()));
            assert_eq!(
                fields[1].value,
                Val::Date(Stamp { secs: 1_700_000_000, nanos: 0, offset_secs: 0 })
            );
            assert_eq!(fields[3].value, Val::Filesize(74_800_000));
            assert!(fields.iter().all(|f| !matches!(f.value, Val::List(..) | Val::Record(..))));
        }
        _ => unreachable!(),
    }
}

#[test]
fn wide_history_rows_list_the_tags() {
    let row = history_row(&item("<missing>"), true);
    assert_eq!(names(&row), ["id", "created", "created_by", "size", "comment", "tags"]);
    match &row {
        Val::Record(fields) => {
            assert_eq!(fields[0].value, Val::Nothing);
            assert_eq!(
                fields[5].value,
                Val::List(vec![
                    Val::Str("postgres:16".to_string()),
                    Val::Str("postgres:latest".to_string())
                ])
            );
        }
        _ => unreachable!(),
    }
}

#[test]
fn history_keeps_the_daemon_order() {
    let table = history_table(&vec![item("a"), item("b")], false);
    match table {
        Val::List(rows) => {
            assert_eq!(rows.len(), 2);
            match (&rows[0], &rows[1]) {
                (Val::Record(a), Val::Record(b)) => {
                    assert_eq!(a[0].value, Val::Str("a".to_string()));
                    assert_eq!(b[0].value, Val::Str("b".to_string()));
                }
                _ => panic!("rows are records"),
            }
        }
        other => panic!("not a list: {:?}", other),
    }
}

#[test]
fn epoch_dates_cover_the_whole_range_of_dates() {
    assert_eq!(
        epoch_date(8_210_266_876_799),
        Val::Date(Stamp { secs: 8_210_266_876_799, nanos: 0, offset_secs: 0 })
    );
    assert_eq!(epoch_date(8_210_266_876_800), Val::Nothing);
    assert_eq!(
        epoch_date(-8_334_601_228_800),
        Val::Date(Stamp { secs: -8_334_601_228_800, nanos: 0, offset_secs: 0 })
    );
    assert_eq!(epoch_date(-8_334_601_228_801), Val::Nothing);
}
