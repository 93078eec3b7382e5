use nude::columns::{ps_column, Cell};

#[test]
fn known_titles_are_typed_whatever_their_case() {
    assert_eq!(ps_column("pid"), ("pid".to_string(), Cell::Int));
    assert_eq!(ps_column("%Cpu"), ("cpu".to_string(), Cell::Float));
    assert_eq!(ps_column("Elapsed"), ("started".to_string(), Cell::Started));
}

#[test]
fn unknown_titles_become_lowercase_string_columns() {
    assert_eq!(ps_column("WCHAN"), ("wchan".to_string(), Cell::Str));
    assert_eq!(ps_column("STIME"), ("stime".to_string(), Cell::Str));
}
