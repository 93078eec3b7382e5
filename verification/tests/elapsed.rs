use nude::elapsed::{span_text, SpanText};

fn shape(raw: &str) -> Option<(Option<String>, Vec<String>)> {
    span_text(raw).map(|SpanText { days, fields }| (days, fields))
}

fn strs(v: &[&str]) -> Vec<String> {
    v.iter().map(|s| s.to_string()).collect()
}

#[test]
fn spans_split_into_days_and_clock_fields() {
    assert_eq!(shape("00:00:03"), Some((None, strs(&["00", "00", "03"]))));
    assert_eq!(shape("12:34"), Some((None, strs(&["12", "34"]))));
    assert_eq!(shape("1-02:03:04"), Some((Some("1".to_string()), strs(&["02", "03", "04"]))));
    assert_eq!(shape("15107"), Some((None, strs(&["15107"]))));
    assert_eq!(shape("04:11:47.50"), Some((None, strs(&["04", "11", "47.50"]))));
}

#[test]
fn a_clock_of_more_than_three_fields_is_no_span() {
    assert_eq!(shape("1:2:3:4"), None);
    assert_eq!(shape("1-1:2:3:4"), None);
}

#[test]
fn only_the_first_dash_parts_days_from_the_clock() {
    assert_eq!(shape("1-2-3"), Some((Some("1".to_string()), strs(&["2-3"]))));
    assert_eq!(shape("-5"), Some((Some(String::new()), strs(&["5"]))));
    assert_eq!(shape(""), Some((None, strs(&[""]))));
    assert_eq!(shape("?"), Some((None, strs(&["?"]))));
}
