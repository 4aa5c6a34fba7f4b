use builder::machine::{BuildError, RecordBuilder, Value};

fn text(s: &str) -> Value {
    Value::Text(s.to_string())
}

#[test]
fn setters_in_reverse_order_give_same_record() {
    let forward = RecordBuilder::new(vec![None, None, None])
        .set(0, Value::Int(1))
        .unwrap()
        .set(1, Value::Bool(true))
        .unwrap()
        .set(2, text("c"))
        .unwrap()
        .finish();
    let backward = RecordBuilder::new(vec![None, None, None])
        .set(2, text("c"))
        .unwrap()
        .set(1, Value::Bool(true))
        .unwrap()
        .set(0, Value::Int(1))
        .unwrap()
        .finish();
    assert_eq!(forward, Ok(vec![Value::Int(1), Value::Bool(true), text("c")]));
    assert_eq!(forward, backward);
}

#[test]
fn finish_with_required_field_unset_is_rejected() {
    let x = RecordBuilder::new(vec![None, None]).set(0, text("emily")).unwrap().finish();
    assert_eq!(x, Err(BuildError::Missing(1)));
    let y = RecordBuilder::new(vec![None, None]).finish();
    assert_eq!(y, Err(BuildError::Missing(0)));
}

#[test]
fn default_is_not_an_override() {
    let x = RecordBuilder::new(vec![None, Some(Value::Int(0))])
        .set(1, Value::Int(9))
        .unwrap()
        .set(0, text("emily"))
        .unwrap()
        .finish();
    assert_eq!(x, Ok(vec![text("emily"), Value::Int(9)]));
}

#[test]
fn setting_twice_is_rejected() {
    let x = RecordBuilder::new(vec![None]).set(0, Value::Int(1)).unwrap().set(0, Value::Int(2));
    assert!(matches!(x, Err(BuildError::AlreadySet(0))));
}

#[test]
fn setting_unknown_field_is_rejected() {
    let x = RecordBuilder::new(vec![None]).set(3, Value::Int(1));
    assert!(matches!(x, Err(BuildError::NoSuchField(3))));
    let y = RecordBuilder::new(vec![None]).build_field(1, vec![]);
    assert!(matches!(y, Err(BuildError::NoSuchField(1))));
}

#[test]
fn nested_matches_direct() {
    let nested = RecordBuilder::new(vec![None, None])
        .set(1, Value::Unit)
        .unwrap()
        .build_field(0, vec![None, Some(Value::Int(5))])
        .unwrap()
        .set(0, text("x"))
        .unwrap()
        .finish()
        .unwrap()
        .finish();
    let inner = RecordBuilder::new(vec![None, Some(Value::Int(5))])
        .set(0, text("x"))
        .unwrap()
        .finish()
        .unwrap();
    let direct = RecordBuilder::new(vec![None, None])
        .set(1, Value::Unit)
        .unwrap()
        .set(0, Value::Record(inner))
        .unwrap()
        .finish();
    assert_eq!(nested, direct);
}

#[test]
fn nested_builder_with_missing_field_fails() {
    let x = RecordBuilder::new(vec![None])
        .build_field(0, vec![None, None])
        .unwrap()
        .set(1, Value::Int(1))
        .unwrap()
        .finish();
    assert!(matches!(x, Err(BuildError::Missing(0))));
}

#[test]
fn nested_entry_on_set_field_is_rejected() {
    let x = RecordBuilder::new(vec![None])
        .set(0, Value::Int(1))
        .unwrap()
        .build_field(0, vec![]);
    assert!(matches!(x, Err(BuildError::AlreadySet(0))));
}

#[test]
fn is_unset_tracks_state() {
    let b = RecordBuilder::new(vec![None, None]);
    assert!(b.is_unset(1));
    assert_eq!(b.len(), 2);
    let b = b.set(1, Value::Int(0)).unwrap();
    assert!(!b.is_unset(1));
    assert!(b.is_unset(0));
    assert!(!b.is_unset(2));
}

#[test]
fn nested_two_levels_deep() {
    let x = RecordBuilder::new(vec![None, None])
        .set(1, Value::Int(3))
        .unwrap()
        .build_field(0, vec![None])
        .unwrap()
        .build_field(0, vec![None, Some(Value::Bool(false))])
        .unwrap()
        .set(0, text("leaf"))
        .unwrap()
        .finish()
        .unwrap()
        .finish()
        .unwrap()
        .finish();
    assert_eq!(
        x,
        Ok(vec![
            Value::Record(vec![Value::Record(vec![text("leaf"), Value::Bool(false)])]),
            Value::Int(3),
        ])
    );
}
