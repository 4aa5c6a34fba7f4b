use builder::machine::{BuildError, RecordBuilder, Value};

fn text(s: &str) -> Value {
    Value::Text(s.to_string())
}

#[test]
fn build_unit_struct() {
    let x = RecordBuilder::new(vec![]).finish();
    assert_eq!(x, Ok(vec![]));
}

#[test]
fn build_tuple_struct() {
    let x = RecordBuilder::new(vec![None, None])
        .set(0, text("hello"))
        .unwrap()
        .set(1, Value::Int(42))
        .unwrap()
        .finish();
    assert_eq!(x, Ok(vec![text("hello"), Value::Int(42)]));
}

#[test]
fn build_field_struct() {
    let x = RecordBuilder::new(vec![None, None])
        .set(0, text("emily"))
        .unwrap()
        .set(1, Value::Int(17))
        .unwrap()
        .finish();
    assert_eq!(x, Ok(vec![text("emily"), Value::Int(17)]));
}

#[test]
fn build_generic_struct() {
    let x = RecordBuilder::new(vec![None]).set(0, Value::Int(33)).unwrap().finish();
    assert_eq!(x, Ok(vec![Value::Int(33)]));
}

#[test]
fn build_const_generic() {
    let arr = Value::Record(vec![Value::Int(32), Value::Int(44), Value::Int(61)]);
    let x = RecordBuilder::new(vec![None]).set(0, arr).unwrap().finish();
    assert_eq!(
        x,
        Ok(vec![Value::Record(vec![Value::Int(32), Value::Int(44), Value::Int(61)])])
    );
}

#[test]
fn build_nested() {
    let x = RecordBuilder::new(vec![None])
        .build_field(0, vec![None, None])
        .unwrap()
        .set(0, text("emily"))
        .unwrap()
        .set(1, Value::Int(127))
        .unwrap()
        .finish()
        .unwrap()
        .finish();
    assert_eq!(
        x,
        Ok(vec![Value::Record(vec![text("emily"), Value::Int(127)])])
    );
}

#[test]
fn build_defaults() {
    let x = RecordBuilder::new(vec![None, Some(Value::Int(0))])
        .set(0, text("emily"))
        .unwrap()
        .finish();
    assert_eq!(x, Ok(vec![text("emily"), Value::Int(0)]));
}
