use pyrev::ast::{BaseValue, BinaryOperation, Class, ExpressionEnum, Function};
use pyrev::query::{get_helper, QueryMap};
use pyrev::query_id::ExprKind;

#[test]
fn test_data_map() {
    let mut map = QueryMap::new();

    let func = Function::default();
    let base = BaseValue::default();

    let query_id = map.add::<Function>(func.into()).unwrap();

    let data = map.query::<Function>();
    assert_eq!(data.len(), 1);

    map.replace::<BaseValue>(query_id, base.into());

    let data = map.query::<Function>();
    assert_eq!(data.len(), 0);

    let data = map.query::<BaseValue>();
    assert_eq!(data.len(), 1);
}

#[test]
fn test_mut_query() {
    let mut map = QueryMap::new();
    let mut func = Function::default();
    let query_id = map
        .add::<Function>(func.clone().into())
        .expect("Failed to add");

    let q_mut_func = map.get_single_mut(query_id).expect("Failed to get");

    assert_eq!(q_mut_func.as_ref_function(), Some(&func));

    if let ExpressionEnum::Function(func) = q_mut_func {
        func.name = "new_name".to_string();
    }
    let q_func = map.get_single(query_id).expect("Failed to get");
    func.name = "new_name".to_string();
    assert_eq!(q_func.as_ref_function(), Some(&func));
}

#[test]
fn query_lists_every_added_expression_of_the_type() {
    let mut map = QueryMap::new();
    let bin_op = BinaryOperation::default();
    let bin_op2 = BinaryOperation {
        operator: "+".to_string(),
        ..Default::default()
    };
    map.add::<BinaryOperation>(bin_op.clone().into()).expect("Failed to add");
    map.add::<BinaryOperation>(bin_op2.clone().into()).expect("Failed to add");
    let q = map.query::<BinaryOperation>();
    assert_eq!(q.len(), 2);
    assert_eq!(q[0].1.as_ref_binary_operation(), Some(&bin_op));
    assert_eq!(q[1].1.as_ref_binary_operation(), Some(&bin_op2));
}

#[test]
fn add_hands_out_ids_in_sequence() {
    let mut map = QueryMap::new();
    let a = map.add::<Class>(Class::default().into()).unwrap();
    let b = map.add::<Function>(Function::default().into()).unwrap();
    assert_eq!(a.id(), 0);
    assert_eq!(b.id(), 1);
    assert_eq!(a.type_id(), ExprKind::Class);
    assert!(b.is::<Function>());
    assert!(!b.is::<BaseValue>());
}

#[test]
fn remove_gives_back_the_data_and_forgets_it() {
    let mut map = QueryMap::new();
    let base = BaseValue {
        value: "x".to_string(),
        ..Default::default()
    };
    let query_id = map.add::<BaseValue>(base.clone().into()).expect("Failed to add");
    let data = map.remove(query_id).expect("Failed to remove");
    assert_eq!(data.as_ref_base_value(), Some(&base));
    assert!(map.get_single(query_id).is_none());
    assert!(map.remove(query_id).is_none());
}

#[test]
fn replace_returns_old_data_and_refiles_the_id() {
    let mut map = QueryMap::new();
    let func = Function::default();
    let query_id = map.add::<Function>(func.clone().into()).expect("Failed to add");
    let base = BaseValue {
        value: "v".to_string(),
        ..Default::default()
    };
    let old_data = map
        .replace::<BaseValue>(query_id, base.clone().into())
        .expect("Failed to replace");
    assert_eq!(old_data.as_ref_function(), Some(&func));
    let q = map.query::<BaseValue>();
    assert_eq!(q.len(), 1);
    assert_eq!(q[0].0.id(), query_id.id());
    assert!(q[0].0.is::<BaseValue>());
    assert!(map.get_single(query_id).is_none());
    assert_eq!(map.get_single(q[0].0).unwrap().as_ref_base_value(), Some(&base));
}

#[test]
fn helpers_follow_optional_ids() {
    let mut map = QueryMap::default();
    let base = BaseValue {
        value: "h".to_string(),
        ..Default::default()
    };
    let id = map.add::<BaseValue>(base.clone().into()).unwrap();
    assert!(get_helper(&map, None).is_none());
    assert_eq!(get_helper(&map, Some(&id)).unwrap().as_ref_base_value(), Some(&base));
    if let Some(ExpressionEnum::BaseValue(b)) = pyrev::query::get_mut_helper(&mut map, Some(&id)) {
        b.value = "changed".to_string();
    }
    assert_eq!(
        get_helper(&map, Some(&id)).unwrap().as_ref_base_value().unwrap().value,
        "changed"
    );
}
