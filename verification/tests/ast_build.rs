use pyrev::ast::{Assign, BaseValue, Class, ExpressionEnum, Function};
use pyrev::ast_build::{build, build_helper, build_helper_some, try_build};
use pyrev::query::QueryMap;

fn name(map: &mut QueryMap, v: &str) -> pyrev::ast::QueryId {
    map.add::<BaseValue>(
        BaseValue {
            value: v.to_string(),
            ..Default::default()
        }
        .into(),
    )
    .unwrap()
}

fn assign(map: &mut QueryMap, target: &str, value: &str) -> pyrev::ast::QueryId {
    let t = name(map, target);
    let v = name(map, value);
    map.add::<Assign>(
        Assign {
            target: Some(t),
            value: Some(v),
            operator: "=".to_string(),
            ..Default::default()
        }
        .into(),
    )
    .unwrap()
}

#[test]
fn class_without_members_passes() {
    let map = QueryMap::new();
    let class: ExpressionEnum = Class {
        name: "A".to_string(),
        ..Default::default()
    }
    .into();
    assert_eq!(
        build(&map, &class),
        Some(vec!["class A:".to_string(), "    pass".to_string()])
    );
}

#[test]
fn module_and_qualname_are_skipped() {
    let mut map = QueryMap::new();
    let m = assign(&mut map, "__module__", "'__main__'");
    let q = assign(&mut map, "__qualname__", "'B'");
    let f = map.add::<Function>(Function::default().into()).unwrap();
    let class: ExpressionEnum = Class {
        name: "B".to_string(),
        members: vec![m, q, f],
        ..Default::default()
    }
    .into();
    assert_eq!(
        build(&map, &class),
        Some(vec!["class B:".to_string(), "".to_string()])
    );
}

#[test]
fn docstring_member() {
    let mut map = QueryMap::new();
    let d = assign(&mut map, "__doc__", "'text'");
    let class: ExpressionEnum = Class {
        name: "C".to_string(),
        members: vec![d],
        ..Default::default()
    }
    .into();
    assert_eq!(
        build(&map, &class),
        Some(vec![
            "class C:".to_string(),
            "    \"\"\"".to_string(),
            "    \"\"\"".to_string(),
            "".to_string(),
        ])
    );
}

#[test]
fn nested_class_member_is_indented() {
    let mut map = QueryMap::new();
    let inner = map
        .add::<Class>(
            Class {
                name: "Inner".to_string(),
                ..Default::default()
            }
            .into(),
        )
        .unwrap();
    let class: ExpressionEnum = Class {
        name: "Outer".to_string(),
        members: vec![inner],
        ..Default::default()
    }
    .into();
    assert_eq!(
        build(&map, &class),
        Some(vec![
            "class Outer:".to_string(),
            "    class Inner:".to_string(),
            "        pass".to_string(),
            "".to_string(),
        ])
    );
    assert_eq!(
        build_helper(&map, &inner),
        Some(vec!["class Inner:".to_string(), "    pass".to_string()])
    );
    assert_eq!(build_helper_some(&map, None), None);
}

#[test]
fn missing_member_gives_none() {
    let mut map = QueryMap::new();
    let other = QueryMap::new();
    let id = name(&mut map, "x");
    let class: ExpressionEnum = Class {
        name: "D".to_string(),
        members: vec![id],
        ..Default::default()
    }
    .into();
    assert_eq!(build(&other, &class), None);
    assert_eq!(try_build(&other, &class), Some(None));
    assert_eq!(build(&map, &ExpressionEnum::BaseValue(BaseValue::default())), Some(vec![]));
}

#[test]
fn member_assigning_to_an_attribute_never_finishes() {
    let mut map = QueryMap::new();
    let f = map.add::<Function>(Function::default().into()).unwrap();
    let a = map
        .add::<Assign>(
            Assign {
                target: Some(f),
                ..Default::default()
            }
            .into(),
        )
        .unwrap();
    let class: ExpressionEnum = Class {
        name: "E".to_string(),
        members: vec![a],
        ..Default::default()
    }
    .into();
    assert_eq!(try_build(&map, &class), None);
}
