use regression_test::diff_lines;

#[test]
fn diff_marks_changed_middle_line() {
    assert_eq!(diff_lines("a\nb\nc", "a\nx\nc"), "  a\n- b\n+ x\n  c\n");
}

#[test]
fn diff_identical_is_all_context() {
    assert_eq!(diff_lines("one\ntwo", "one\ntwo"), "  one\n  two\n");
}

#[test]
fn diff_disjoint_groups_removals_before_additions() {
    assert_eq!(diff_lines("a\nb", "x\ny"), "- a\n- b\n+ x\n+ y\n");
}

#[test]
fn diff_longer_actual_adds_lines() {
    assert_eq!(diff_lines("a", "a\nb\nc"), "  a\n+ b\n+ c\n");
}

#[test]
fn diff_longer_expected_removes_lines() {
    assert_eq!(diff_lines("a\nb", "a"), "  a\n- b\n");
}

#[test]
fn diff_empty_inputs() {
    assert_eq!(diff_lines("", ""), "");
    assert_eq!(diff_lines("", "x"), "+ x\n");
}

#[test]
fn diff_ignores_final_newline_and_carriage_return() {
    assert_eq!(diff_lines("a\r\nb\n", "a\nb"), "  a\n  b\n");
}

#[test]
fn diff_empty_line_against_missing_line_is_context() {
    assert_eq!(diff_lines("a\n\n", "a"), "  a\n  \n");
}
