use pyrev::mark::MarkError;
use pyrev::query_id::ExprKind;
use pyrev::tree::query::{Hit, QueryError};
use pyrev::tree::{Assign, BaseValue, BinaryOperation, Class, Expr, ExpressionEnum, FastVariable, Function, Return};

#[test]
fn test_parse_function() {
    let msg = r#"<code object foo at 0x00000246F5EA0D50, file "test/def.py", line 3>"#;
    let function = Function::new(msg).unwrap();

    assert_eq!(function.mark, msg,);
    assert_eq!(function.name, "foo");
    assert_eq!(function.start_line, 3);
    assert_eq!(function.end_line, 3);
    assert!(function.args.is_empty());
    assert!(function.bodys.is_empty());
}

#[test]
fn class_from_mark() {
    let msg = r#"<code object Point at 0x000001, file "t.py", line 12>"#;
    let class = Class::new(msg).unwrap();
    assert_eq!(class.name, "Point");
    assert_eq!(class.start_line, 12);
    assert_eq!(class.mark, msg);
    assert!(class.members.is_empty());
}

#[test]
fn not_a_mark_is_rejected() {
    let err = Function::new("foo").unwrap_err();
    assert_eq!(err, MarkError::Invalid("foo".to_string()));
    assert_eq!(err.message(), "Invalid function mark: foo");
}

#[test]
fn huge_line_is_rejected() {
    let msg = r#"<code object f at 0x1, file "t.py", line 99999999999999999999999>"#;
    assert_eq!(
        Function::new(msg).unwrap_err(),
        MarkError::BadLine("99999999999999999999999".to_string())
    );
}

#[test]
fn function_from_expression() {
    let msg = r#"<code object g at 0x1, file "t.py", line 7>"#;
    let f = Function::from(ExpressionEnum::BaseValue(BaseValue {
        value: msg.to_string(),
        ..Default::default()
    }))
    .unwrap();
    assert_eq!(f.name, "g");
    assert_eq!(f.end_line, 7);
    assert_eq!(
        Function::from(ExpressionEnum::Function(Function::default())).unwrap_err(),
        MarkError::NotBaseValue
    );
}

#[test]
fn expr_collects_statements() {
    let mut e = Expr::new();
    e.add_expression(ExpressionEnum::BaseValue(BaseValue {
        value: "a".to_string(),
        ..Default::default()
    }));
    let mut f = Expr::default();
    f.add_expression(ExpressionEnum::BaseValue(BaseValue {
        value: "b".to_string(),
        ..Default::default()
    }));
    e.extend(f);
    let items = e.iter();
    assert_eq!(items.len(), 2);
    assert_eq!(
        items[1],
        &ExpressionEnum::BaseValue(BaseValue {
            value: "b".to_string(),
            ..Default::default()
        })
    );
}

fn base(v: &str) -> ExpressionEnum {
    ExpressionEnum::BaseValue(BaseValue { value: v.to_string(), start_line: 0, start_offset: 0, end_offset: 0 })
}

fn value_of(h: &Hit) -> String {
    match h {
        Hit::Node(ExpressionEnum::BaseValue(b)) => b.value.clone(),
        Hit::Node(_) => "node".to_string(),
        Hit::Param(p) => p.name.clone(),
    }
}

fn sum_assign() -> ExpressionEnum {
    ExpressionEnum::Assign(Assign {
        target: Box::new(base("x")),
        values: Box::new(ExpressionEnum::BinaryOperation(BinaryOperation {
            left: Box::new(base("a")),
            right: Box::new(base("b")),
            operator: "+".to_string(),
            start_line: 0,
            start_offset: 0,
            end_offset: 0,
        })),
        operator: "=".to_string(),
        start_line: 0,
        start_offset: 0,
        end_offset: 0,
    })
}

#[test]
fn query_finds_nodes_field_by_field() {
    let e = sum_assign();
    let hits = e.query(ExprKind::BaseValue);
    let names: Vec<String> = hits.iter().map(value_of).collect();
    assert_eq!(names, vec!["x", "a", "b"]);
    assert_eq!(e.query(ExprKind::Assign).len(), 1);
    assert!(e.query(ExprKind::Call).is_empty());
}

#[test]
fn query_singleton_needs_exactly_one() {
    let e = sum_assign();
    assert!(matches!(e.query_singleton(ExprKind::BinaryOperation), Ok(Hit::Node(ExpressionEnum::BinaryOperation(_)))));
    assert_eq!(e.query_singleton(ExprKind::BaseValue).err(), Some(QueryError::NotSingleton));
    assert_eq!(e.query_singleton(ExprKind::Call).err(), Some(QueryError::NotSingleton));
    assert_eq!(QueryError::NotSingleton.message(), "Query error: Not singleton");
}

#[test]
fn query_finds_parameters_and_nested_functions() {
    let msg = r#"<code object f at 0x1, file "t.py", line 1>"#;
    let mut inner = Function::new(msg).unwrap();
    inner.bodys.push(ExpressionEnum::Return(Return {
        value: Box::new(base("1")),
        start_line: 0,
        start_offset: 0,
        end_offset: 0,
    }));
    let mut outer = Function::new(msg).unwrap();
    outer.args.push(FastVariable { index: 0, name: "p".to_string(), annotation: None, start_line: 0, start_offset: 0, end_offset: 0 });
    outer.bodys.push(ExpressionEnum::Function(inner));
    let mut program = Expr::new();
    program.add_expression(ExpressionEnum::Function(outer));
    assert_eq!(program.query(ExprKind::Function).len(), 2);
    let params = program.query(ExprKind::FastVariable);
    assert_eq!(params.len(), 1);
    assert_eq!(value_of(&params[0]), "p");
    assert!(program.query_singleton(ExprKind::Return).is_ok());
    let e = base("x");
    assert!(e.try_query(ExprKind::BaseValue).is_some());
    assert!(e.try_query(ExprKind::Call).is_none());
}

fn test_function_node() -> Function {
    Function {
        mark: "<code object test at 0x00000279922BDB80, file \"test/def.py\", line 1>".to_string(),
        name: "test".to_string(),
        args: vec![],
        bodys: vec![],
        defaults: vec![],
        is_async: false,
        start_line: 1,
        end_line: 1,
        start_offset: 0,
        end_offset: 0,
    }
}

fn test_assign_node() -> Assign {
    Assign {
        target: Box::new(base("test")),
        values: Box::new(ExpressionEnum::Function(test_function_node())),
        operator: "=".to_string(),
        start_line: 0,
        start_offset: 0,
        end_offset: 0,
    }
}

#[test]
fn test_query() {
    let expr = Box::new(Expr { bodys: vec![ExpressionEnum::Assign(test_assign_node())] });
    let assign_query = expr.query(ExprKind::Assign);
    let function_query = expr.query(ExprKind::Function);
    assert_eq!(assign_query.len(), 1);
    match &assign_query[0] {
        Hit::Node(e) => assert_eq!(**e, ExpressionEnum::Assign(test_assign_node())),
        Hit::Param(_) => panic!("an assignment is a node"),
    }
    assert_eq!(function_query.len(), 1);
    match &function_query[0] {
        Hit::Node(e) => assert_eq!(**e, ExpressionEnum::Function(test_function_node())),
        Hit::Param(_) => panic!("a function is a node"),
    }
}

fn a_equals_1() -> ExpressionEnum {
    ExpressionEnum::Assign(Assign {
        target: Box::new(base("a")),
        values: Box::new(base("1")),
        operator: "=".to_string(),
        start_line: 0,
        start_offset: 0,
        end_offset: 0,
    })
}

#[test]
fn test_any() {
    let expr = a_equals_1();
    let any = expr.try_query(ExprKind::Assign);
    assert_eq!(any, Some(&a_equals_1()));
}
