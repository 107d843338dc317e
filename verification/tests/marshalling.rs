use aj_rs::marshal::build;
use aj_rs::marshal::Param;
use aj_rs::value::Tag;
use aj_rs::value::TypedValue;

#[test]
fn arglist_is_reversed_declared_order() {
    let params = vec![
        Param::In(TypedValue::from_i32(1)),
        Param::In(TypedValue::from_i32(2)),
        Param::In(TypedValue::from_i32(3)),
    ];
    let args = build(params);
    assert_eq!(args.len(), 3);
    assert!(args[0].equals(&TypedValue::from_i32(3)));
    assert!(args[1].equals(&TypedValue::from_i32(2)));
    assert!(args[2].equals(&TypedValue::from_i32(1)));
}

#[test]
fn in_arguments_read_in_reverse_equal_originals() {
    let supplied: Vec<i32> = vec![10, 20, 30, 40, 50];
    let params: Vec<Param> =
        supplied.iter().map(|n| Param::In(TypedValue::from_i32(*n))).collect();
    let n: usize = params.len();
    let args = build(params);
    assert_eq!(args.len(), n);
    for (i, v) in supplied.iter().enumerate() {
        assert!(args[n - 1 - i].equals(&TypedValue::from_i32(*v)));
    }
}

#[test]
fn out_parameters_marshal_as_empty_byref_slots() {
    let params = vec![
        Param::In(TypedValue::from_i32(7)),
        Param::Out(Tag::Int32),
        Param::Out(Tag::Text),
    ];
    let args = build(params);
    assert_eq!(args.len(), 3);
    for slot in &args[0..2] {
        match slot {
            TypedValue::ByRef(inner) => assert!(matches!(**inner, TypedValue::Empty)),
            other => panic!("expected a by-reference slot, got {:?}", other),
        }
    }
    assert!(args[2].equals(&TypedValue::from_i32(7)));
}

#[test]
fn empty_string_argument_marshals_as_empty_value() {
    let params = vec![
        Param::In(TypedValue::from_text("name")),
        Param::In(TypedValue::Text(String::new())),
    ];
    let args = build(params);
    assert_eq!(args.len(), 2);
    assert!(matches!(args[0], TypedValue::Empty));
    assert!(args[1].equals(&TypedValue::from_text("name")));
}

#[test]
fn mixed_signature_keeps_positions() {
    let params = vec![
        Param::In(TypedValue::from_i32(100)),
        Param::Out(Tag::Int32),
        Param::In(TypedValue::from_text("t")),
        Param::Out(Tag::Text),
        Param::In(TypedValue::from_bool(true)),
    ];
    let args = build(params);
    assert_eq!(args.len(), 5);
    assert!(args[0].equals(&TypedValue::from_bool(true)));
    assert!(matches!(args[1], TypedValue::ByRef(_)));
    assert!(args[2].equals(&TypedValue::from_text("t")));
    assert!(matches!(args[3], TypedValue::ByRef(_)));
    assert!(args[4].equals(&TypedValue::from_i32(100)));
}

#[test]
fn empty_parameter_list_builds_empty_arglist() {
    let args = build(Vec::new());
    assert_eq!(args.len(), 0);
}
