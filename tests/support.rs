use builder::support::{Callback, Identity, NoData, OrDefault};

#[test]
fn unset_marker_resolves_to_default() {
    let u: NoData<u32> = NoData::new();
    assert_eq!(OrDefault::<u32>::or_default(u), 0u32);
    let d: NoData<String> = Default::default();
    assert_eq!(OrDefault::<String>::or_default(d), String::new());
}

#[test]
fn set_value_resolves_to_itself() {
    assert_eq!(OrDefault::<u32>::or_default(17u32), 17);
    assert_eq!(OrDefault::<String>::or_default("emily".to_string()), "emily");
}

#[test]
fn identity_returns_its_argument() {
    assert_eq!(Callback::<u32>::callback(Identity, 5u32), 5);
}

#[test]
fn closure_is_a_continuation() {
    let f = |x: u32| x + 1;
    assert_eq!(Callback::<u32>::callback(f, 41), 42);
}
