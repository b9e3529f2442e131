use pyrev::ast::{
    Attribute, BaseValue, BinaryOperation, Call, Class, Container, ContainerType, ExpressionEnum,
    FastVariable, Function, UnaryOperation, UnaryType, Assign,
};
use pyrev::query::QueryMap;
use pyrev::query_id::QueryId;
use pyrev::visit::{PyNodeVisitor, Unparser};

fn base(map: &mut QueryMap, value: &str) -> Option<QueryId> {
    map.add::<BaseValue>(ExpressionEnum::BaseValue(BaseValue {
        value: value.to_string(),
        ..Default::default()
    }))
}

fn render(map: &QueryMap, id: QueryId) -> Vec<String> {
    let node = map.get_single(id).unwrap();
    let mut unparser = Unparser::new();
    unparser.visit(node, map)
}

#[test]
fn test_binary_op() {
    let mut map = QueryMap::new();
    let left = base(&mut map, "A");
    let right = base(&mut map, "1");
    let bv = map
        .add::<BinaryOperation>(ExpressionEnum::BinaryOperation(BinaryOperation {
            left,
            operator: "=".to_string(),
            right,
            ..Default::default()
        }))
        .unwrap();
    let bv = map.get_single(bv).unwrap();

    let mut unparser = Unparser::new();

    let res = unparser.visit(bv, &map);

    assert_eq!(res, vec!["A = 1".to_string()]);
}

#[test]
fn unary_not_writes_operator_then_operand() {
    let mut map = QueryMap::new();
    let right = base(&mut map, "1");
    let op = map
        .add::<UnaryOperation>(ExpressionEnum::UnaryOperation(UnaryOperation {
            target: right,
            unary_type: UnaryType::Not,
            ..Default::default()
        }))
        .unwrap();
    assert_eq!(render(&map, op), vec!["not 1".to_string()]);
}

#[test]
fn unary_operators_have_their_spelling() {
    let mut map = QueryMap::new();
    let x = base(&mut map, "x");
    for (t, text) in [
        (UnaryType::Invert, "~x"),
        (UnaryType::Positive, "+x"),
        (UnaryType::Negative, "-x"),
    ] {
        let op = map
            .add::<UnaryOperation>(ExpressionEnum::UnaryOperation(UnaryOperation {
                target: x,
                unary_type: t,
                ..Default::default()
            }))
            .unwrap();
        assert_eq!(render(&map, op), vec![text.to_string()]);
    }
}

#[test]
fn test_function() {
    let mut map = QueryMap::new();
    let mut args = Vec::new();
    for (name, anno) in [("a", None), ("b", None), ("c", Some("int"))] {
        args.push(
            map.add::<FastVariable>(ExpressionEnum::FastVariable(FastVariable {
                name: name.to_string(),
                annotation: anno.map(|a: &str| a.to_string()),
                ..Default::default()
            }))
            .unwrap(),
        );
    }
    let ret = map.add::<FastVariable>(ExpressionEnum::FastVariable(FastVariable {
        name: "return".to_string(),
        annotation: Some("int".to_string()),
        ..Default::default()
    }));
    let func = map
        .add::<Function>(ExpressionEnum::Function(Function {
            name: "add".to_string(),
            args,
            ret,
            bodys: vec![],
            ..Default::default()
        }))
        .unwrap();

    let func = map.get_single(func).unwrap();

    let mut unparser = Unparser::new();

    let res = unparser.visit(func, &map);

    let res = res.join("\n");

    assert_eq!(res, "def add(a, b, c: int) -> int:\n    pass\n".to_string());
}

#[test]
fn test_attr() {
    let mut map = QueryMap::new();
    let parent = base(&mut map, "BBB");
    let attr = base(&mut map, "a");
    let attr = map
        .add::<Attribute>(ExpressionEnum::Attribute(Attribute {
            parent,
            attr,
            ..Default::default()
        }))
        .unwrap();

    let attr = map.get_single(attr).unwrap();

    let mut unparser = Unparser::new();

    let res = unparser.visit(attr, &map);

    assert_eq!(res, vec!["BBB.a".to_string()]);
}

#[test]
fn containers_use_their_brackets() {
    let mut map = QueryMap::new();
    let a = base(&mut map, "a").unwrap();
    let b = base(&mut map, "b").unwrap();
    for (t, text) in [
        (ContainerType::List, "[ab]"),
        (ContainerType::Tuple, "(ab)"),
        (ContainerType::SetContainer, "{ab}"),
        (ContainerType::Dict, "{a: b}"),
    ] {
        let c = map
            .add::<Container>(ExpressionEnum::Container(Container {
                values: vec![a, b],
                container_type: t,
                ..Default::default()
            }))
            .unwrap();
        assert_eq!(render(&map, c), vec![text.to_string()]);
    }
}

#[test]
fn call_separates_arguments_with_commas() {
    let mut map = QueryMap::new();
    let func = base(&mut map, "print");
    let a = base(&mut map, "1").unwrap();
    let b = base(&mut map, "2").unwrap();
    let call = map
        .add::<Call>(ExpressionEnum::Call(Call {
            func,
            args: vec![a, b],
            ..Default::default()
        }))
        .unwrap();
    assert_eq!(render(&map, call), vec!["print(1, 2)".to_string()]);
}

#[test]
fn class_skips_module_and_writes_docstring() {
    let mut map = QueryMap::new();
    let module_target = base(&mut map, "__module__");
    let module_value = base(&mut map, "'__main__'");
    let module = map
        .add::<Assign>(ExpressionEnum::Assign(Assign {
            target: module_target,
            value: module_value,
            operator: "=".to_string(),
            ..Default::default()
        }))
        .unwrap();
    let doc_target = base(&mut map, "__doc__");
    let doc_value = base(&mut map, "'first\n\n  second'");
    let doc = map
        .add::<Assign>(ExpressionEnum::Assign(Assign {
            target: doc_target,
            value: doc_value,
            operator: "=".to_string(),
            ..Default::default()
        }))
        .unwrap();
    let x_target = base(&mut map, "x");
    let x_value = base(&mut map, "1");
    let x = map
        .add::<Assign>(ExpressionEnum::Assign(Assign {
            target: x_target,
            value: x_value,
            operator: "=".to_string(),
            ..Default::default()
        }))
        .unwrap();
    let class = map
        .add::<Class>(ExpressionEnum::Class(Class {
            name: "A".to_string(),
            members: vec![module, doc, x],
            ..Default::default()
        }))
        .unwrap();
    let res = render(&map, class);
    assert_eq!(
        res,
        vec![
            "class A:", "    ", "", "", "    ", "    \"\"\"", "    first", "      second",
            "    \"\"\"", "", "", "    x = 1", "", "", ""
        ]
        .into_iter()
        .map(|s| s.to_string())
        .collect::<Vec<_>>()
    );
}

#[test]
fn empty_class_gets_pass() {
    let mut map = QueryMap::new();
    let class = map
        .add::<Class>(ExpressionEnum::Class(Class {
            name: "E".to_string(),
            ..Default::default()
        }))
        .unwrap();
    assert_eq!(render(&map, class).join("\n"), "class E:\n    pass\n");
}

#[test]
fn writer_primitives() {
    let mut u = Unparser::new();
    u.write_back("a");
    u.add_with_padding("b", "", "");
    u.add_comma();
    u.write_newline_indent_with("c");
    u.delimit("(", ")", "d");
    assert_eq!(u.output(), vec!["ab, ".to_string(), "    c(d)".to_string()]);
}
