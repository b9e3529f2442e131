use pyrev::disasm::{parse_opcodes, DisasmError, OpcodeParser};
use pyrev::opcode::{Opcode, OpcodeInstruction};

#[test]
fn parse_opcode_test_parse_opcode() {
    let bytecode = r#"  1           2 LOAD_CONST               0 ('b')
        4 LOAD_NAME                0 (int)
        6 LOAD_CONST               1 ('return')
        8 LOAD_NAME                0 (int)
       10 BUILD_TUPLE              4
       12 LOAD_CONST               2 (<code object test at 0x0000025C36EDDB80, file "test/def.py", line 1>)
       14 MAKE_FUNCTION            4 (annotations)
       16 STORE_NAME               1 (test)"#.to_string();
    let parsed = bytecode.parse().unwrap();
    assert_eq!(
        parsed.get(&"<main>".to_string()).unwrap().get(&1).unwrap(),
        &vec![
            OpcodeInstruction {
                opcode: Opcode::LoadConst,
                opname: "LOAD_CONST".to_string(),
                arg: Some(0,),
                argval: Some("'b'".to_string(),),
                offset: 2,
                starts_line: Some(1,),
                is_jump_target: false,
                positions: vec![],
            },
            OpcodeInstruction {
                opcode: Opcode::LoadName,
                opname: "LOAD_NAME".to_string(),
                arg: Some(0,),
                argval: Some("int".to_string(),),
                offset: 4,
                starts_line: None,
                is_jump_target: false,
                positions: vec![],
            },
            OpcodeInstruction {
                opcode: Opcode::LoadConst,
                opname: "LOAD_CONST".to_string(),
                arg: Some(1,),
                argval: Some("'return'".to_string(),),
                offset: 6,
                starts_line: None,
                is_jump_target: false,
                positions: vec![],
            },
            OpcodeInstruction {
                opcode: Opcode::LoadName,
                opname: "LOAD_NAME".to_string(),
                arg: Some(0,),
                argval: Some("int".to_string(),),
                offset: 8,
                starts_line: None,
                is_jump_target: false,
                positions: vec![],
            },
            OpcodeInstruction {
                opcode: Opcode::BuildTuple,
                opname: "BUILD_TUPLE".to_string(),
                arg: Some(4,),
                argval: None,
                offset: 10,
                starts_line: None,
                is_jump_target: false,
                positions: vec![],
            },
            OpcodeInstruction {
                opcode: Opcode::LoadConst,
                opname: "LOAD_CONST".to_string(),
                arg: Some(2,),
                argval: Some(
                    r#"<code object test at 0x0000025C36EDDB80, file "test/def.py", line 1>"#
                        .to_string(),
                ),
                offset: 12,
                starts_line: None,
                is_jump_target: false,
                positions: vec![],
            },
            OpcodeInstruction {
                opcode: Opcode::MakeFunction,
                opname: "MAKE_FUNCTION".to_string(),
                arg: Some(4,),
                argval: Some("annotations".to_string(),),
                offset: 14,
                starts_line: None,
                is_jump_target: false,
                positions: vec![],
            },
            OpcodeInstruction {
                opcode: Opcode::StoreName,
                opname: "STORE_NAME".to_string(),
                arg: Some(1,),
                argval: Some("test".to_string(),),
                offset: 16,
                starts_line: None,
                is_jump_target: false,
                positions: vec![],
            },
        ]
    )
}

#[test]
fn disassembly_headers_start_code_objects() {
    let text = r#"  0           0 RESUME                   0

  2           2 LOAD_CONST               0 (<code object foo at 0x00000223C0B267F0, file "<dis>", line 2>)
              4 MAKE_FUNCTION            0
              6 STORE_NAME               0 (foo)

Disassembly of <code object foo at 0x00000223C0B267F0, file "<dis>", line 2>:
  2           0 RESUME                   0

  3           2 LOAD_CONST               1 (1)
              4 RETURN_VALUE"#;
    let parsed = parse_opcodes(text).unwrap();
    let marks: Vec<&String> = parsed.keys();
    assert_eq!(marks.len(), 2);
    assert_eq!(marks[0], "<main>");
    assert_eq!(
        marks[1],
        r#"<code object foo at 0x00000223C0B267F0, file "<dis>", line 2>"#
    );
    let main = parsed.get(&"<main>".to_string()).unwrap();
    assert_eq!(main.keys(), vec![&0, &2]);
    assert_eq!(main.get(&2).unwrap().len(), 3);
    let foo = parsed.get(marks[1]).unwrap();
    assert_eq!(foo.get(&3).unwrap()[1].opcode, Opcode::ReturnValue);
    assert_eq!(foo.get(&3).unwrap()[1].starts_line, None);
}

#[test]
fn instruction_before_any_line_is_an_error() {
    let err = parse_opcodes("            4 RETURN_VALUE").unwrap_err();
    assert_eq!(err, DisasmError::UnknownLine);
    assert_eq!(err.message(), "Unknown Line");
}

#[test]
fn unknown_opcode_names_read_as_unknown() {
    let parsed = parse_opcodes("  7           0 NOT_AN_OPCODE").unwrap();
    let ins = &parsed.get(&"<main>".to_string()).unwrap().get(&7).unwrap()[0];
    assert_eq!(ins.opcode, Opcode::Unknown);
    assert_eq!(ins.opname, "NOT_AN_OPCODE");
    assert_eq!(ins.arg, None);
}

#[test]
fn code_objects_join_their_lines_in_order() {
    let text = r#"  0           0 RESUME                   0

  2           2 LOAD_CONST               0 (<code object foo at 0x00000223C0B267F0, file "<dis>", line 2>)
              4 MAKE_FUNCTION            0
              6 STORE_NAME               0 (foo)

Disassembly of <code object foo at 0x00000223C0B267F0, file "<dis>", line 2>:
  2           0 RESUME                   0

  3           2 LOAD_CONST               1 (1)
              4 RETURN_VALUE"#;
    let parsed = parse_opcodes(text).unwrap();
    let objs = pyrev::disasm::code_objects(&parsed);
    let main = objs.get(&"<main>".to_string()).unwrap();
    let offsets: Vec<usize> = main.iter().map(|i| i.offset).collect();
    assert_eq!(offsets, vec![0, 2, 4, 6]);
    assert_eq!(main[3].argval, Some("foo".to_string()));
    let foo = objs
        .get(&r#"<code object foo at 0x00000223C0B267F0, file "<dis>", line 2>"#.to_string())
        .unwrap();
    assert_eq!(foo.len(), 3);
    assert_eq!(foo[2].opcode, Opcode::ReturnValue);
}
