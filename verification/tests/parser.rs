use pyrev::ast::{ContainerType, ExpressionEnum, UnaryType};
use pyrev::opcode::OpcodeInstruction;
use pyrev::parser::parse;
use pyrev::parser::spec::ParseError;
use pyrev::query::QueryMap;
use pyrev::visit::{PyNodeVisitor, Unparser};

fn ins(name: &str, arg: Option<usize>, argval: Option<&str>, offset: usize, line: Option<usize>) -> OpcodeInstruction {
    OpcodeInstruction::new(name, arg, argval.map(|s| s.to_string()), offset, line)
}

fn unparse(map: &QueryMap, ids: &[pyrev::query_id::QueryId]) -> Vec<String> {
    let mut out = Vec::new();
    for id in ids {
        let mut u = Unparser::new();
        out.extend(u.visit(map.get_single(*id).unwrap(), map));
    }
    out
}

#[test]
fn annotated_function_definition() {
    let mark = "<code object test at 0x00000279922BDB80, file \"test/def.py\", line 1>";
    let code = vec![
        ins("LOAD_CONST", Some(0), Some("'a'"), 2, Some(1)),
        ins("LOAD_NAME", Some(0), Some("int"), 4, None),
        ins("LOAD_CONST", Some(1), Some("'return'"), 6, None),
        ins("LOAD_NAME", Some(0), Some("int"), 8, None),
        ins("BUILD_TUPLE", Some(4), None, 10, None),
        ins("LOAD_CONST", Some(2), Some(mark), 12, None),
        ins("MAKE_FUNCTION", Some(4), Some("annotations"), 14, None),
        ins("STORE_NAME", Some(1), Some("test"), 16, None),
    ];
    let mut map = QueryMap::new();
    let ids = parse(&mut map, &code).ok().unwrap();
    assert_eq!(ids.len(), 1);
    let f = map.get_single(ids[0]).unwrap().as_ref_function().unwrap().clone();
    assert_eq!(f.name, "test");
    assert_eq!(f.mark, mark);
    assert_eq!(f.start_line, 1);
    assert_eq!(f.start_offset, 14);
    assert_eq!(f.end_offset, 15);
    assert_eq!(f.args.len(), 2);
    let a = map.get_single(f.args[0]).unwrap().as_ref_fast_variable().unwrap();
    assert_eq!(a.name, "a");
    assert_eq!(a.index, 0);
    assert_eq!(a.annotation, Some("int".to_string()));
    let r = map.get_single(f.args[1]).unwrap().as_ref_fast_variable().unwrap();
    assert_eq!(r.name, "return");
    assert_eq!(r.index, 1);
}

#[test]
fn assignment_of_a_sum() {
    let code = vec![
        ins("LOAD_NAME", Some(0), Some("a"), 0, Some(1)),
        ins("LOAD_CONST", Some(0), Some("1"), 2, None),
        ins("BINARY_OP", Some(0), Some("+"), 4, None),
        ins("STORE_NAME", Some(1), Some("b"), 6, None),
    ];
    let mut map = QueryMap::new();
    let ids = parse(&mut map, &code).ok().unwrap();
    assert_eq!(ids.len(), 1);
    let assign = map.get_single(ids[0]).unwrap().as_ref_assign().unwrap();
    assert_eq!(assign.operator, "=");
    assert_eq!(assign.start_offset, 6);
    assert_eq!(unparse(&map, &ids), vec!["b = a + 1".to_string()]);
}

#[test]
fn calls_lists_and_unary_operations() {
    let code = vec![
        ins("LOAD_NAME", Some(0), Some("NULL + print"), 0, Some(1)),
        ins("LOAD_CONST", Some(0), Some("1"), 2, None),
        ins("LOAD_CONST", Some(1), Some("2"), 4, None),
        ins("BUILD_LIST", Some(2), None, 6, None),
        ins("LOAD_NAME", Some(2), Some("x"), 8, None),
        ins("UNARY_NOT", None, None, 10, None),
        ins("CALL", Some(2), None, 12, None),
    ];
    let mut map = QueryMap::new();
    let ids = parse(&mut map, &code).ok().unwrap();
    assert_eq!(ids.len(), 1);
    let call = map.get_single(ids[0]).unwrap().as_ref_call().unwrap();
    assert_eq!(call.start_line, 0);
    assert_eq!(call.args.len(), 2);
    let list = map.get_single(call.args[0]).unwrap().as_ref_container().unwrap();
    assert_eq!(list.container_type, ContainerType::List);
    let not = map.get_single(call.args[1]).unwrap().as_ref_unary_operation().unwrap();
    assert_eq!(not.unary_type, UnaryType::Not);
    assert_eq!(unparse(&map, &ids), vec!["print([12], not x)".to_string()]);
}

#[test]
fn errors_are_reported() {
    let mut map = QueryMap::new();
    let code = vec![ins("STORE_NAME", Some(0), Some("x"), 0, Some(1))];
    assert_eq!(parse(&mut map, &code).unwrap_err(), ParseError::IdsStackEmpty);
    let code = vec![ins("LOAD_CONST", Some(0), None, 4, Some(1))];
    assert_eq!(
        parse(&mut map, &code).unwrap_err(),
        ParseError::ArgvalIsNone { offset: 4 }
    );
    let code = vec![
        ins("LOAD_CONST", Some(0), Some("1"), 0, Some(1)),
        ins("LOAD_CONST", Some(0), Some("2"), 2, None),
        ins("IS_OP", Some(7), None, 4, None),
    ];
    assert_eq!(
        parse(&mut map, &code).unwrap_err(),
        ParseError::InvalidArg { target: "IsOp operator".to_string() }
    );
    let code = vec![ins("BUILD_TUPLE", None, None, 0, Some(1))];
    assert_eq!(
        parse(&mut map, &code).unwrap_err(),
        ParseError::IsNone("BuildTuple size".to_string())
    );
}

#[test]
fn dictionaries_from_constant_keys() {
    let code = vec![
        ins("LOAD_CONST", Some(0), Some("1"), 0, Some(1)),
        ins("LOAD_CONST", Some(1), Some("2"), 2, None),
        ins("LOAD_CONST", Some(2), Some("('a', 'b')"), 4, None),
        ins("BUILD_CONST_KEY_MAP", Some(2), None, 6, None),
    ];
    let mut map = QueryMap::new();
    let ids = parse(&mut map, &code).ok().unwrap();
    assert_eq!(unparse(&map, &ids), vec!["{'a': 1'b': 2}".to_string()]);
}

#[test]
fn class_definition_skips_to_the_next_line() {
    let mark = "<code object A at 0x1, file \"t.py\", line 1>";
    let code = vec![
        ins("LOAD_BUILD_CLASS", None, None, 0, Some(1)),
        ins("LOAD_CONST", Some(0), Some(mark), 2, Some(1)),
        ins("MAKE_FUNCTION", Some(0), None, 4, Some(1)),
        ins("LOAD_CONST", Some(1), Some("'A'"), 6, Some(1)),
        ins("LOAD_NAME", Some(0), Some("x"), 8, Some(3)),
    ];
    let mut map = QueryMap::new();
    let ids = parse(&mut map, &code).ok().unwrap();
    assert_eq!(ids.len(), 2);
    let class = map.get_single(ids[0]).unwrap();
    assert!(matches!(class, ExpressionEnum::Class(c) if c.name == "A" && c.start_line == 1));
    assert_eq!(
        map.get_single(ids[1]).unwrap().as_ref_base_value().unwrap().value,
        "x"
    );
}

#[test]
fn every_id_left_by_a_parse_is_filed() {
    let code = vec![
        ins("LOAD_NAME", Some(0), Some("print"), 0, Some(1)),
        ins("LOAD_CONST", Some(0), Some("'hi'"), 2, None),
        ins("CALL", Some(1), None, 4, None),
        ins("LOAD_NAME", Some(1), Some("x"), 6, Some(2)),
        ins("LOAD_CONST", Some(1), Some("2"), 8, None),
        ins("BINARY_OP", Some(5), Some("*"), 10, None),
        ins("STORE_NAME", Some(2), Some("y"), 12, None),
        ins("LOAD_CONST", Some(2), Some("None"), 14, Some(3)),
        ins("RETURN_VALUE", None, None, 16, None),
    ];
    let mut map = QueryMap::new();
    let ids = parse(&mut map, &code).ok().unwrap();
    assert_eq!(ids.len(), 3);
    for id in &ids {
        assert!(map.get_single(*id).is_some());
    }
}
