use pyrev::tree::codegen::{add_self_with, BuildError};
use pyrev::tree::{
    Assign, BaseValue, BinaryOperation, Call, Class, Container, ContainerType, Except,
    ExpressionEnum, FastVariable, Finally, For, Format, FormatValue, Function, If, Import, Return,
    Slice, Subscr, Try, UnaryOperation, UnaryType, Yield,
};

fn bv(s: &str) -> ExpressionEnum {
    ExpressionEnum::BaseValue(BaseValue {
        value: s.to_string(),
        ..Default::default()
    })
}

fn bx(s: &str) -> Box<ExpressionEnum> {
    Box::new(bv(s))
}

fn arg(name: &str, index: usize, anno: Option<&str>) -> FastVariable {
    FastVariable {
        index,
        name: name.to_string(),
        annotation: anno.map(|a| a.to_string()),
        ..Default::default()
    }
}

fn ret(e: ExpressionEnum) -> ExpressionEnum {
    ExpressionEnum::Return(Return {
        value: Box::new(e),
        ..Default::default()
    })
}

fn binop(l: &str, op: &str, r: &str) -> ExpressionEnum {
    ExpressionEnum::BinaryOperation(BinaryOperation {
        left: bx(l),
        right: bx(r),
        operator: op.to_string(),
        ..Default::default()
    })
}

fn lines(v: &[&str]) -> Vec<String> {
    v.iter().map(|s| s.to_string()).collect()
}

#[test]
fn definition_with_annotations() {
    let f = ExpressionEnum::Function(Function {
        name: "add".to_string(),
        args: vec![
            arg("a", 0, None),
            arg("b", 1, None),
            arg("c", 2, Some("int")),
            arg("return", 3, Some("int")),
        ],
        ..Default::default()
    });
    assert_eq!(
        f.build().unwrap(),
        lines(&["def add(a, b, c: int) -> int:", "    pass", ""])
    );
}

#[test]
fn definition_with_default_and_body() {
    let f = ExpressionEnum::Function(Function {
        name: "f".to_string(),
        args: vec![arg("y", 1, None), arg("x", 0, None)],
        defaults: vec!["1".to_string()],
        bodys: vec![ret(bv("x"))],
        is_async: true,
        ..Default::default()
    });
    assert_eq!(
        f.build().unwrap(),
        lines(&["async def f(x, y = 1):", "    return x", ""])
    );
}

#[test]
fn lambda_and_its_call() {
    let lambda = ExpressionEnum::Function(Function {
        name: "<lambda>".to_string(),
        args: vec![arg("x", 0, None)],
        bodys: vec![ret(binop("x", "+", "1"))],
        ..Default::default()
    });
    assert_eq!(lambda.build().unwrap(), lines(&["lambda x: x + 1"]));
    let call = ExpressionEnum::Call(Call {
        func: Box::new(lambda),
        args: vec![bv("2")],
        ..Default::default()
    });
    assert_eq!(call.build().unwrap(), lines(&["(lambda x: x + 1)(2)"]));
}

#[test]
fn lambda_without_body_is_an_error() {
    let lambda = ExpressionEnum::Function(Function {
        name: "<lambda>".to_string(),
        ..Default::default()
    });
    assert_eq!(lambda.build().unwrap_err(), BuildError::NoLambdaBody);
    assert_eq!(BuildError::NoLambdaBody.message(), "No lambda body");
    assert_eq!(BuildError::NoDefault.message(), "No default! Iter error");
}

#[test]
fn list_comprehension() {
    let f = ExpressionEnum::Function(Function {
        name: "<listcomp>".to_string(),
        args: vec![arg(".0", 0, None)],
        bodys: vec![bv("x * 2"), bv("xs")],
        ..Default::default()
    });
    assert_eq!(f.build().unwrap(), lines(&["[x * 2 for .0 in xs]"]));
    let short = ExpressionEnum::Function(Function {
        name: "<listcomp>".to_string(),
        bodys: vec![bv("x")],
        ..Default::default()
    });
    assert!(short.try_build().is_none());
}

#[test]
fn more_defaults_than_parameters_cannot_be_written() {
    let f = ExpressionEnum::Function(Function {
        name: "g".to_string(),
        defaults: vec!["1".to_string()],
        ..Default::default()
    });
    assert!(f.try_build().is_none());
}

fn assign(target: &str, value: &str) -> ExpressionEnum {
    ExpressionEnum::Assign(Assign {
        target: bx(target),
        values: bx(value),
        operator: "=".to_string(),
        ..Default::default()
    })
}

#[test]
fn class_with_docstring_and_method() {
    let method = ExpressionEnum::Function(Function {
        name: "norm".to_string(),
        bodys: vec![ret(bv("0"))],
        ..Default::default()
    });
    let class = ExpressionEnum::Class(Class {
        name: "P".to_string(),
        members: vec![
            assign("__module__", "'__main__'"),
            assign("__qualname__", "'P'"),
            assign("__doc__", "'A point.\\nSecond line'"),
            method,
        ],
        ..Default::default()
    });
    assert_eq!(
        class.build().unwrap(),
        lines(&[
            "class P:",
            "    \"\"\"",
            "A point.",
            "Second line",
            "    \"\"\"",
            "",
            "    def norm(self, *args):",
            "        return 0",
            "    ",
        ])
    );
}

#[test]
fn class_members_without_docstring() {
    let class = ExpressionEnum::Class(Class {
        name: "Q".to_string(),
        members: vec![assign("__module__", "'__main__'"), assign("x", "1")],
        ..Default::default()
    });
    assert_eq!(
        class.build().unwrap(),
        lines(&["class Q:", "    x = 1", ""])
    );
    let empty = ExpressionEnum::Class(Class {
        name: "E".to_string(),
        ..Default::default()
    });
    assert_eq!(empty.build().unwrap(), lines(&["class E:", "    pass"]));
}

#[test]
fn class_starting_with_an_attribute_assignment_cannot_be_written() {
    let class = ExpressionEnum::Class(Class {
        name: "R".to_string(),
        members: vec![ExpressionEnum::Assign(Assign {
            target: Box::new(binop("a", ".", "b")),
            values: bx("1"),
            operator: "=".to_string(),
            ..Default::default()
        })],
        ..Default::default()
    });
    assert!(class.try_build().is_none());
}

#[test]
fn method_lines_get_self() {
    assert_eq!(add_self_with("def f():", Some(String::new())), "def f(self, *args):");
    assert_eq!(add_self_with("def g(x):", Some("x".to_string())), "def g(x, *args):");
    assert_eq!(add_self_with("x = 1", None), "x = 1");
}

fn container(t: ContainerType, vs: &[&str]) -> ExpressionEnum {
    ExpressionEnum::Container(Container {
        values: vs.iter().map(|v| bv(v)).collect(),
        container_type: t,
        ..Default::default()
    })
}

#[test]
fn containers() {
    assert_eq!(
        container(ContainerType::Dict, &["'a'", "1", "'b'", "None"]).build().unwrap(),
        lines(&["{ 'a': 1, 'b': None }"])
    );
    assert_eq!(
        container(ContainerType::List, &["1", "2"]).build().unwrap(),
        lines(&["[1, 2]"])
    );
    assert_eq!(container(ContainerType::Tuple, &[]).build().unwrap(), lines(&["()"]));
    assert_eq!(
        container(ContainerType::SetContainer, &["1"]).build().unwrap(),
        lines(&["{ 1 }"])
    );
    assert!(container(ContainerType::Dict, &["'a'"]).try_build().is_none());
}

#[test]
fn if_elif_else() {
    let e = ExpressionEnum::If(If {
        test: None,
        body: vec![ret(bv("3"))],
        ..Default::default()
    });
    let middle = ExpressionEnum::If(If {
        test: Some(Box::new(binop("a", "<", "0"))),
        body: vec![ret(bv("2"))],
        or_else: Some(Box::new(e)),
        ..Default::default()
    });
    let top = ExpressionEnum::If(If {
        test: Some(Box::new(binop("a", ">", "1"))),
        body: vec![ret(bv("1"))],
        or_else: Some(Box::new(middle)),
        ..Default::default()
    });
    assert_eq!(
        top.build().unwrap(),
        lines(&[
            "if a > 1:",
            "    return 1",
            "elif a < 0:",
            "    return 2",
            "else:",
            "    return 3",
        ])
    );
}

#[test]
fn for_loop_and_try() {
    let range = ExpressionEnum::Call(Call {
        func: bx("range"),
        args: vec![bv("3")],
        ..Default::default()
    });
    let f = ExpressionEnum::For(For {
        iterator: Box::new(range),
        items: bx("i"),
        ..Default::default()
    });
    assert_eq!(f.build().unwrap(), lines(&["for i in range(3):", "    pass"]));
    let t = ExpressionEnum::Try(Try {
        body: vec![assign("x", "1")],
        except: vec![ExpressionEnum::Except(Except {
            exception: bx("ValueError"),
            body: vec![ExpressionEnum::Raise(pyrev::tree::Raise {
                exception: bx("e"),
                ..Default::default()
            })],
            ..Default::default()
        })],
        finally: Box::new(ExpressionEnum::Finally(Finally {
            body: vec![ExpressionEnum::Call(Call {
                func: bx("print"),
                ..Default::default()
            })],
            ..Default::default()
        })),
        ..Default::default()
    });
    assert_eq!(
        t.build().unwrap(),
        lines(&["    x = 1", "except ValueError:", "    raise e", "finally:", "    print()"])
    );
}

#[test]
fn format_string() {
    let f = ExpressionEnum::Format(Format {
        format_values: vec![
            bv("'x = '"),
            ExpressionEnum::FormatValue(FormatValue {
                value: bx("x"),
                ..Default::default()
            }),
            bv("'\"'"),
        ],
        ..Default::default()
    });
    assert_eq!(f.build().unwrap(), lines(&["f\"x = {x}\\\"\""]));
}

#[test]
fn imports() {
    let from = ExpressionEnum::Import(Import {
        module: "os".to_string(),
        bk_module: Some("path, system, ".to_string()),
        ..Default::default()
    });
    assert_eq!(from.build().unwrap(), lines(&["from os import path, system"]));
    let alias = ExpressionEnum::Import(Import {
        module: "numpy".to_string(),
        alias: Some("np".to_string()),
        ..Default::default()
    });
    assert_eq!(alias.build().unwrap(), lines(&["import numpy as np"]));
}

#[test]
fn unary_slice_subscript_yield() {
    let not = ExpressionEnum::UnaryOperation(UnaryOperation {
        target: bx("a"),
        unary_type: UnaryType::Not,
        ..Default::default()
    });
    assert_eq!(not.build().unwrap(), lines(&["not a"]));
    let plus = ExpressionEnum::UnaryOperation(UnaryOperation {
        target: bx("a"),
        unary_type: UnaryType::Positive,
        ..Default::default()
    });
    assert!(plus.try_build().is_none());
    let slice = ExpressionEnum::Slice(Slice {
        origin: bx("a"),
        slice: vec![bv("1"), bv("None")],
        ..Default::default()
    });
    assert_eq!(slice.build().unwrap(), lines(&["a[1:]"]));
    let sub = ExpressionEnum::Subscr(Subscr {
        index: bx("0"),
        target: bx("a"),
        ..Default::default()
    });
    assert_eq!(sub.build().unwrap(), lines(&["a[0]"]));
    let y = ExpressionEnum::Yield(Yield {
        value: bx("None"),
        ..Default::default()
    });
    assert_eq!(y.build().unwrap(), lines(&["yield"]));
    assert_eq!(ret(bv("None")).build().unwrap(), Vec::<String>::new());
}

#[test]
fn parameters_in_index_order() {
    let f = Function {
        args: vec![arg("c", 2, None), arg("a", 0, Some("int")), arg("b", 1, None)],
        ..Default::default()
    };
    let names: Vec<(String, Option<String>)> = f
        .args_iter()
        .into_iter()
        .map(|(n, a)| (n.clone(), a.clone()))
        .collect();
    assert_eq!(
        names,
        vec![
            ("a".to_string(), Some("int".to_string())),
            ("b".to_string(), None),
            ("c".to_string(), None),
        ]
    );
}
