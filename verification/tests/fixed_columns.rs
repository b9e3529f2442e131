use pyrev::bytecode::operator::{reverse_bytecode, PyLine};

fn lines(v: &[&str]) -> Vec<String> {
    v.iter().map(|s| s.to_string()).collect()
}

#[test]
fn line_number_and_first_offset() {
    let bcs = lines(&[
        "  1           0 LOAD_CONST               0 (1)",
        "              2 STORE_NAME               0 (a)",
    ]);
    let l = reverse_bytecode(&bcs);
    assert_eq!(l.line, 1);
    assert_eq!(l.start_offset, 0);
    assert_eq!(l.pyscript, "a = 1");
    assert_eq!(l.jump_offset, None);
    assert_eq!(l.retractions, 0);
}

#[test]
fn jump_target_marker_counts_as_zero() {
    let bcs = lines(&["  3     >>    8 LOAD_NAME                0 (a)"]);
    let l = reverse_bytecode(&bcs);
    assert_eq!(l.line, 3);
    assert_eq!(l.start_offset, 0);
}

#[test]
fn short_first_line_loses_its_last_byte() {
    let bcs = lines(&["  7          12 NOP"]);
    let l = reverse_bytecode(&bcs);
    assert_eq!(l.line, 7);
    assert_eq!(l.start_offset, 12);
}

#[test]
fn new_line_has_no_indentation() {
    let l = PyLine::new(4, "x = 1".to_string(), 10, Some(20));
    assert_eq!(l.line, 4);
    assert_eq!(l.pyscript, "x = 1");
    assert_eq!(l.start_offset, 10);
    assert_eq!(l.jump_offset, Some(20));
    assert_eq!(l.retractions, 0);
}

#[test]
fn list_built_from_a_constant_is_assigned() {
    let bcs = lines(&[
        "  1           2 BUILD_LIST               0",
        "              4 LOAD_CONST               0 ((1, 3, 'asf'))",
        "              6 LIST_EXTEND              1",
        "              8 STORE_NAME               0 (a)",
    ]);
    let l = reverse_bytecode(&bcs);
    assert_eq!(l.line, 1);
    assert_eq!(l.start_offset, 2);
    assert_eq!(l.pyscript, "a = [1, 3, 'asf']");
}

#[test]
fn call_is_written() {
    let call = reverse_bytecode(&lines(&[
        "  2           0 LOAD_NAME                0 (print)",
        "              2 LOAD_CONST               0 ('hi')",
        "              4 CALL                     1",
    ]));
    assert_eq!(call.pyscript, "print('hi')");
}
