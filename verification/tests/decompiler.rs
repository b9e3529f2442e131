use pyrev::decompiler::DecompiledCode;
use pyrev::common::order_map::OrderMap;
use pyrev::decompiler::code_gen;
use pyrev::opcode::OpcodeInstruction;

fn ins(name: &str, arg: Option<usize>, argval: Option<&str>, offset: usize, line: Option<usize>) -> OpcodeInstruction {
    OpcodeInstruction::new(name, arg, argval.map(|s| s.to_string()), offset, line)
}

#[test]
fn main_statements_are_written() {
    let mut objs: OrderMap<String, Vec<OpcodeInstruction>> = OrderMap::new();
    objs.insert(
        "<main>".to_string(),
        vec![
            ins("LOAD_NAME", Some(0), Some("a"), 0, Some(1)),
            ins("LOAD_CONST", Some(0), Some("1"), 2, None),
            ins("BINARY_OP", Some(0), Some("+"), 4, None),
            ins("STORE_NAME", Some(1), Some("b"), 6, None),
            ins("LOAD_NAME", Some(2), Some("b"), 8, Some(2)),
            ins("STORE_NAME", Some(3), Some("c"), 10, None),
        ],
    );
    assert_eq!(code_gen(objs, "\n").ok().unwrap(), "b = a + 1\nc = b");
}

#[test]
fn other_objects_are_parsed_but_not_written() {
    let mut objs: OrderMap<String, Vec<OpcodeInstruction>> = OrderMap::new();
    objs.insert(
        "f".to_string(),
        vec![ins("LOAD_CONST", Some(0), Some("2"), 0, Some(3)), ins("STORE_FAST", Some(0), Some("x"), 2, None)],
    );
    objs.insert(
        "<main>".to_string(),
        vec![ins("LOAD_CONST", Some(0), Some("1"), 0, Some(1)), ins("STORE_NAME", Some(0), Some("y"), 2, None)],
    );
    assert_eq!(code_gen(objs, "\n").ok().unwrap(), "y = 1");
}

#[test]
fn first_parse_error_is_returned() {
    let mut objs: OrderMap<String, Vec<OpcodeInstruction>> = OrderMap::new();
    objs.insert("<main>".to_string(), vec![ins("STORE_NAME", Some(0), Some("x"), 0, Some(1))]);
    assert_eq!(
        code_gen(objs, "\n").unwrap_err(),
        pyrev::parser::spec::ParseError::IdsStackEmpty
    );
}

#[test]
fn decompiled_code_keeps_lines_in_order() {
    let mut code = DecompiledCode::new();
    assert!(code.iter().is_empty());
    code.insert(3, "x = 1");
    code.insert(1, "print(x)");
    let lines = code.iter();
    assert_eq!(lines.len(), 2);
    assert_eq!(lines[0].0, 3);
    assert_eq!(lines[0].1, "x = 1");
    assert_eq!(lines[1].0, 1);
    assert_eq!(lines[1].1, "print(x)");
}

#[test]
fn disassembly_of_two_calls_reads_back_as_source() {
    let text = "  0           0 RESUME                   0

  1           2 LOAD_NAME                0 (a)
              4 LOAD_ATTR                1 (b)
              6 LOAD_METHOD              2 (c)
             28 PRECALL                  0
             32 CALL                     0
             42 POP_TOP
             44 PUSH_NULL
             46 LOAD_NAME                3 (print)
             48 PRECALL                  0
             52 CALL                     0
             62 POP_TOP
             64 LOAD_CONST               0 (None)
             66 RETURN_VALUE";
    let parsed = pyrev::disasm::parse_opcodes(text).unwrap();
    let mut objs: OrderMap<String, Vec<OpcodeInstruction>> = OrderMap::new();
    for (mark, object) in parsed.iter() {
        let mut all = Vec::new();
        for (_, instructions) in object.iter() {
            all.extend(instructions.iter().cloned());
        }
        objs.insert(mark.clone(), all);
    }
    assert_eq!(code_gen(objs, "\n").ok().unwrap(), "a.b.c()\nprint()");
}

#[test]
fn lines_are_joined_by_the_given_line_break() {
    let mut objs: OrderMap<String, Vec<OpcodeInstruction>> = OrderMap::new();
    objs.insert(
        "<main>".to_string(),
        vec![
            ins("LOAD_CONST", Some(0), Some("1"), 0, Some(1)),
            ins("STORE_NAME", Some(0), Some("x"), 2, None),
            ins("LOAD_CONST", Some(1), Some("2"), 4, Some(2)),
            ins("STORE_NAME", Some(1), Some("y"), 6, None),
        ],
    );
    assert_eq!(code_gen(objs, "\r\n").ok().unwrap(), "x = 1\r\ny = 2");
}
