use sqlorm::text::join;

#[test]
fn joining_nothing_is_empty() {
    assert_eq!(join(&[], ", "), "");
}

#[test]
fn joining_one_part_adds_no_separator() {
    assert_eq!(join(&["id"], ","), "id");
    assert_eq!(join(&[""], ","), "");
}

#[test]
fn joining_puts_the_separator_between_parts_only() {
    assert_eq!(join(&["id", "name"], ","), "id,name");
    assert_eq!(join(&["a", "b", "c"], " AND "), "a AND b AND c");
    assert_eq!(join(&["a", "", "c"], "-"), "a--c");
    assert_eq!(join(&["a", "b"], ""), "ab");
}
