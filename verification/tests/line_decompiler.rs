use pyrev::bytecode::utils::{display_width, PyCodeString, PyObj, PyScript};

const ASSIGN: &str = "  1           0 LOAD_CONST               0 (1)\n              2 STORE_NAME               0 (a)";

#[test]
fn constant_assignment() {
    let obj = PyObj::from(ASSIGN);
    assert_eq!(obj.line, 1);
    assert_eq!(obj.bytecode_lines.len(), 2);
    assert_eq!(obj.bytecode_lines[1].offset, 2);
    assert_eq!(obj.bytecode_lines[1].real_arg, Some("a".to_string()));
    assert_eq!(obj.to_python(), "a = 1");
}

#[test]
fn binary_operation() {
    let text = "  2           4 LOAD_NAME                0 (a)\n              6 LOAD_CONST               1 (2)\n              8 BINARY_OP                0 (+)\n             12 STORE_NAME               1 (b)";
    assert_eq!(PyObj::from(text).to_python(), "b = a + 2");
}

#[test]
fn call_and_import() {
    let call = "  3          14 PUSH_NULL\n             16 LOAD_NAME                2 (print)\n             18 LOAD_CONST               2 ('hi')\n             20 CALL                     1\n             28 POP_TOP";
    assert_eq!(PyObj::from(call).to_python(), "print('hi')");
    let import = "  1           0 LOAD_CONST               0 (0)\n              2 LOAD_CONST               1 (None)\n              4 IMPORT_NAME              0 (os)\n              6 STORE_NAME               0 (os)";
    assert_eq!(PyObj::from(import).to_python(), "import os");
    let alias = "  1           0 LOAD_CONST               0 (0)\n              2 LOAD_CONST               1 (None)\n              4 IMPORT_NAME              0 (numpy)\n              6 STORE_NAME               0 (np)";
    assert_eq!(PyObj::from(alias).to_python(), "import numpy as np");
}

#[test]
fn list_extension() {
    let text = "  1           0 BUILD_LIST               0\n              2 LOAD_CONST               0 ((1, 2))\n              4 LIST_EXTEND              1\n              6 STORE_NAME               0 (x)";
    assert_eq!(PyObj::from(text).to_python(), "x = [1, 2]");
}

#[test]
fn machine_stops_on_empty_stack() {
    let obj = PyObj::from("  1           0 STORE_NAME               0 (a)");
    assert_eq!(obj.try_to_python(), None);
    assert!(PyObj::try_from_text("  1           0 BINARY_FOO               0 (a)").is_none());
    assert!(PyObj::try_from_text(ASSIGN).is_some());
}

#[test]
fn blocks_grouped_by_line() {
    let code = format!(
        "header\n\n{}\n\n  2           4 LOAD_CONST               1 (2)\n              6 STORE_NAME               1 (b)\n\n{}\n",
        ASSIGN,
        "  1           8 LOAD_NAME                0 (a)\n             10 STORE_NAME               2 (c)"
    );
    let objs = PyCodeString::from(code).to_pyobjs();
    assert_eq!(objs.objs.len(), 2);
    assert_eq!(objs.objs[0].line, 1);
    assert_eq!(objs.objs[0].bytecode_lines.len(), 4);
    assert_eq!(objs.objs[1].line, 2);
    let scripts = objs.to_pyscript();
    assert_eq!(scripts.len(), 2);
    assert_eq!(scripts[0].script, Some("c = a".to_string()));
    assert_eq!(scripts[1].script, Some("b = 2".to_string()));
    assert_eq!(scripts[1].line, 2);
    assert_eq!(display_width(&scripts), 2);
}

#[test]
fn width_of_line_column() {
    let scripts = vec![
        PyScript { line: 3, script: None },
        PyScript { line: 120, script: Some("x".to_string()) },
    ];
    assert_eq!(display_width(&scripts), 4);
}
