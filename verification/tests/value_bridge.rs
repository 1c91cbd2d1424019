use rhai_host::bridge::{from_dynamic, to_dynamic};
use rhai_host::value::{DynamicValue, HostValue};

fn sample_host_value() -> HostValue {
    HostValue::List(vec![
        HostValue::Null,
        HostValue::Bool(true),
        HostValue::Int(-7),
        HostValue::Float((2.25f64).to_bits()),
        HostValue::Str(String::from("hello")),
        HostValue::Mapping(vec![
            (String::from("a"), HostValue::Int(1)),
            (String::from("b"), HostValue::List(vec![HostValue::Int(2), HostValue::Int(3)])),
        ]),
    ])
}

#[test]
fn scalars_round_trip() {
    for v in [
        HostValue::Null,
        HostValue::Bool(false),
        HostValue::Bool(true),
        HostValue::Int(i64::MIN),
        HostValue::Int(0),
        HostValue::Int(i64::MAX),
        HostValue::Float((0.0f64).to_bits()),
        HostValue::Float((-3.5f64).to_bits()),
        HostValue::Float(f64::NAN.to_bits()),
        HostValue::Str(String::new()),
        HostValue::Str(String::from("text")),
    ] {
        let expected = match &v {
            HostValue::Null => HostValue::Null,
            HostValue::Bool(b) => HostValue::Bool(*b),
            HostValue::Int(i) => HostValue::Int(*i),
            HostValue::Float(bits) => HostValue::Float(*bits),
            HostValue::Str(s) => HostValue::Str(s.clone()),
            _ => unreachable!(),
        };
        assert_eq!(from_dynamic(&to_dynamic(&v)), expected);
    }
}

#[test]
fn nested_value_round_trips() {
    let v = sample_host_value();
    assert_eq!(from_dynamic(&to_dynamic(&v)), sample_host_value());
}

#[test]
fn empty_list_round_trips_as_list() {
    let v = HostValue::List(vec![]);
    let d = to_dynamic(&v);
    assert_eq!(d, DynamicValue::Array(vec![]));
    assert_eq!(from_dynamic(&d), HostValue::List(vec![]));
}

#[test]
fn tuple_narrows_to_list() {
    let tuple = HostValue::Tuple(vec![HostValue::Int(1), HostValue::Int(2), HostValue::Int(3)]);
    let list = HostValue::List(vec![HostValue::Int(1), HostValue::Int(2), HostValue::Int(3)]);
    assert_eq!(to_dynamic(&tuple), to_dynamic(&list));
    // The round trip therefore comes back as a list, not a tuple.
    assert_eq!(from_dynamic(&to_dynamic(&tuple)), list);
}

#[test]
fn char_becomes_one_character_string() {
    assert_eq!(from_dynamic(&DynamicValue::Char('x')), HostValue::Str(String::from("x")));
}

#[test]
fn unit_and_opaque_become_null() {
    assert_eq!(from_dynamic(&DynamicValue::Unit), HostValue::Null);
    assert_eq!(from_dynamic(&DynamicValue::Opaque), HostValue::Null);
}

#[test]
fn mapping_converts_key_wise() {
    let v = HostValue::Mapping(vec![
        (String::from("k1"), HostValue::Bool(true)),
        (String::from("k2"), HostValue::Null),
    ]);
    let d = to_dynamic(&v);
    assert_eq!(
        d,
        DynamicValue::Mapping(vec![
            (String::from("k1"), DynamicValue::Bool(true)),
            (String::from("k2"), DynamicValue::Unit),
        ])
    );
}

#[test]
fn duplicate_preserves_value() {
    let d = to_dynamic(&sample_host_value());
    assert_eq!(d.duplicate(), d);
}
