use pyrev::bytecodemap::{BytecodeMap, ValueType, ValueTypeVec};

fn lines(v: &[&str]) -> Vec<String> {
    v.iter().map(|s| s.to_string()).collect()
}

#[test]
fn constant_store() {
    let bcs = lines(&[
        "1           0 LOAD_CONST               0 (1)",
        "            2 STORE_NAME               0 (a)",
    ]);
    assert_eq!(pyrev::bytecodemap::test(&bcs), "a = 1");
}

#[test]
fn list_store() {
    let bcs = lines(&[
        "1           0 BUILD_LIST               0",
        "            2 LOAD_CONST               1 ((1, 2))",
        "            4 LIST_EXTEND              1",
        "            6 STORE_NAME               0 (x)",
    ]);
    assert_eq!(pyrev::bytecodemap::test(&bcs), "x = [1,2]");
}

#[test]
fn opcode_names() {
    assert_eq!(BytecodeMap::get("LOAD_CONST"), BytecodeMap::LoadConst);
    assert_eq!(BytecodeMap::get("LOAD_CONST").name(), "LOAD_CONST");
    assert_eq!(BytecodeMap::get("POP_JUMP_IF_TRUE").name(), "POP_JUMP_IF_TRUE");
    assert_eq!(BytecodeMap::get("FOO"), BytecodeMap::Unknown);
    assert_eq!(BytecodeMap::Unknown.name(), "None");
}

#[test]
fn value_kinds() {
    assert_eq!(ValueType::Tuple.build("t", "(1, 2)"), "t = (1, 2)");
    assert_eq!(ValueType::Dict.build("d", "()"), "d = {}");
    assert_eq!(ValueType::NoType.build("n", "1"), "n");
    let mut v = ValueTypeVec::new();
    assert_eq!(v.pop(), Some(ValueType::Common));
    v.push(ValueType::List);
    assert_eq!(v.pop(), Some(ValueType::List));
}
