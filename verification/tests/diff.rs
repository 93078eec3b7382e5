use nude::diff::{change_kind, diff_row, diff_table, ChangeKind, FsChange};
use nude::value::{Field, Val};

fn change(path: &str, kind: ChangeKind) -> FsChange {
    FsChange { path: path.to_string(), kind }
}

#[test]
fn each_change_kind_has_its_name() {
    assert_eq!(change_kind(ChangeKind::Modified), Val::Str("modified".to_string()));
    assert_eq!(change_kind(ChangeKind::Added), Val::Str("added".to_string()));
    assert_eq!(change_kind(ChangeKind::Deleted), Val::Str("deleted".to_string()));
}

#[test]
fn a_change_is_its_path_and_kind() {
    assert_eq!(
        diff_row(&change("/etc/hosts", ChangeKind::Modified)),
        Val::Record(vec![
            Field { name: "path".to_string(), value: Val::Str("/etc/hosts".to_string()) },
            Field { name: "kind".to_string(), value: Val::Str("modified".to_string()) },
        ])
    );
}

#[test]
fn no_changes_are_an_empty_table() {
    assert_eq!(diff_table(&None), Val::List(vec![]));
}

#[test]
fn changes_keep_their_order() {
    let t = diff_table(&Some(vec![
        change("/tmp", ChangeKind::Added),
        change("/var/log/x", ChangeKind::Deleted),
    ]));
    match t {
        Val::List(rows) => {
            assert_eq!(rows.len(), 2);
            assert_eq!(rows[0], diff_row(&change("/tmp", ChangeKind::Added)));
            assert_eq!(rows[1], diff_row(&change("/var/log/x", ChangeKind::Deleted)));
        }
        other => panic!("not a list: {:?}", other),
    }
}
