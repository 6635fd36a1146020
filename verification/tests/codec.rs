use rutie_serde::{from_object, new_ruby_object, HostValue, Shape, Value, VariantShape};

fn round_trip(v: Value, shape: Shape) -> Value {
    let host = new_ruby_object(&v).expect("encode failed");
    from_object(&host, &shape).expect("decode failed")
}

#[test]
fn bool_round_trip() {
    assert_eq!(round_trip(Value::Bool(true), Shape::Bool), Value::Bool(true));
    assert_eq!(round_trip(Value::Bool(false), Shape::Bool), Value::Bool(false));
}

#[test]
fn i64_round_trip() {
    for v in [0i64, 1, -1, 42, -9006, i64::MAX, i64::MIN] {
        assert_eq!(round_trip(Value::I64(v), Shape::I64), Value::I64(v));
    }
}

#[test]
fn narrow_widths_share_the_i64_path() {
    let host = new_ruby_object(&Value::I64(300)).unwrap();
    assert_eq!(from_object(&host, &Shape::I8).unwrap(), Value::I64(300));
    assert_eq!(from_object(&host, &Shape::I16).unwrap(), Value::I64(300));
    assert_eq!(from_object(&host, &Shape::I32).unwrap(), Value::I64(300));
}

#[test]
fn u32_round_trip() {
    for v in [0u32, 1, 4294967295] {
        assert_eq!(round_trip(Value::U32(v), Shape::U32), Value::U32(v));
    }
}

#[test]
fn u64_round_trip_wraps_through_the_signed_host_integer() {
    for v in [0u64, 1, 9223372036854775807, 9223372036854775808, 18446744073709551615] {
        assert_eq!(round_trip(Value::U64(v), Shape::U64), Value::U64(v));
    }
    // above the signed range the host sees a negative integer
    let host = new_ruby_object(&Value::U64(u64::MAX)).unwrap();
    assert_eq!(host, HostValue::Int(-1));
}

#[test]
fn f64_round_trip_by_bit_pattern() {
    for f in [0.0f64, 1.5, -2.25, f64::MAX] {
        let bits = f.to_bits();
        assert_eq!(round_trip(Value::F64(bits), Shape::F64), Value::F64(bits));
    }
}

#[test]
fn string_round_trip() {
    for s in ["", "hello", "Grüße"] {
        assert_eq!(
            round_trip(Value::Str(s.to_owned()), Shape::Str),
            Value::Str(s.to_owned())
        );
    }
}

#[test]
fn char_decodes_only_one_character_strings() {
    let host = HostValue::Str("x".to_owned());
    assert_eq!(from_object(&host, &Shape::Char).unwrap(), Value::Str("x".to_owned()));
    let host2 = HostValue::Str("xy".to_owned());
    assert!(from_object(&host2, &Shape::Char).is_err());
}

#[test]
fn bytes_round_trip_for_valid_text() {
    let b = "hello".as_bytes().to_vec();
    assert_eq!(
        round_trip(Value::Bytes(b.clone()), Shape::Bytes),
        Value::Bytes(b)
    );
}

#[test]
fn invalid_bytes_fail_to_encode() {
    let e = new_ruby_object(&Value::Bytes(vec![0xff, 0xfe])).unwrap_err();
    assert!(matches!(
        e.kind(),
        rutie_serde::ErrorKind::Message(_)
    ));
}

#[test]
fn option_round_trip() {
    assert_eq!(
        round_trip(Value::Missing, Shape::Optional(Box::new(Shape::I64))),
        Value::Missing
    );
    assert_eq!(
        round_trip(
            Value::Present(Box::new(Value::I64(9))),
            Shape::Optional(Box::new(Shape::I64))
        ),
        Value::Present(Box::new(Value::I64(9)))
    );
}

#[test]
fn unit_round_trip_and_rejection() {
    assert_eq!(round_trip(Value::Unit, Shape::Unit), Value::Unit);
    let e = from_object(&HostValue::Int(3), &Shape::Unit).unwrap_err();
    assert!(matches!(e.kind(), rutie_serde::ErrorKind::Message(_)));
}

#[test]
fn sequence_round_trip() {
    let v = Value::Sequence(vec![Value::I64(1), Value::I64(2), Value::I64(3)]);
    let got = round_trip(v, Shape::Sequence(Box::new(Shape::I64)));
    assert_eq!(
        got,
        Value::Sequence(vec![Value::I64(1), Value::I64(2), Value::I64(3)])
    );
}

#[test]
fn tuple_decodes_elementwise() {
    let host = HostValue::Array(vec![HostValue::Int(1), HostValue::Bool(true)]);
    let got = from_object(&host, &Shape::Tuple(vec![Shape::I64, Shape::Bool])).unwrap();
    assert_eq!(got, Value::Tuple(vec![Value::I64(1), Value::Bool(true)]));
}

#[test]
fn tuple_shorter_host_fails() {
    let host = HostValue::Array(vec![HostValue::Int(1)]);
    let e = from_object(&host, &Shape::Tuple(vec![Shape::I64, Shape::I64])).unwrap_err();
    assert!(matches!(e.kind(), rutie_serde::ErrorKind::Message(_)));
}

#[test]
fn map_round_trip() {
    let v = Value::Mapping(vec![
        (Value::Str("k".to_owned()), Value::I64(7)),
        (Value::Str("m".to_owned()), Value::I64(8)),
    ]);
    let got = round_trip(v, Shape::Mapping(Box::new(Shape::Str), Box::new(Shape::I64)));
    assert_eq!(
        got,
        Value::Mapping(vec![
            (Value::Str("k".to_owned()), Value::I64(7)),
            (Value::Str("m".to_owned()), Value::I64(8)),
        ])
    );
}

fn ab_fields() -> Vec<(String, Shape)> {
    vec![("a".to_owned(), Shape::I64), ("b".to_owned(), Shape::I64)]
}

#[test]
fn struct_dual_mode_yields_the_same_value() {
    let hash_host = HostValue::Hash(vec![
        (HostValue::Str("a".to_owned()), HostValue::Int(1)),
        (HostValue::Str("b".to_owned()), HostValue::Int(2)),
    ]);
    let object_host = HostValue::Object {
        class_name: "Point".to_owned(),
        methods: vec![
            ("a".to_owned(), HostValue::Int(1)),
            ("b".to_owned(), HostValue::Int(2)),
        ],
    };
    let from_hash = from_object(&hash_host, &Shape::Struct(ab_fields())).unwrap();
    let from_obj = from_object(&object_host, &Shape::Struct(ab_fields())).unwrap();
    let expected = Value::Struct(vec![
        ("a".to_owned(), Value::I64(1)),
        ("b".to_owned(), Value::I64(2)),
    ]);
    assert_eq!(from_hash, expected);
    assert_eq!(from_obj, expected);
}

#[test]
fn struct_round_trips_through_symbolic_keys() {
    let v = Value::Struct(vec![
        ("a".to_owned(), Value::I64(1)),
        ("b".to_owned(), Value::I64(2)),
    ]);
    let host = new_ruby_object(&v).unwrap();
    assert_eq!(
        host,
        HostValue::Hash(vec![
            (HostValue::Sym("a".to_owned()), HostValue::Int(1)),
            (HostValue::Sym("b".to_owned()), HostValue::Int(2)),
        ])
    );
    let fields = vec![("a".to_owned(), Shape::I64), ("b".to_owned(), Shape::I64)];
    let got = from_object(&host, &Shape::Struct(fields)).unwrap();
    assert_eq!(
        got,
        Value::Struct(vec![
            ("a".to_owned(), Value::I64(1)),
            ("b".to_owned(), Value::I64(2)),
        ])
    );
}

fn a_fields() -> Vec<(String, Shape)> {
    vec![("a".to_owned(), Shape::I64)]
}

#[test]
fn struct_ignores_unknown_keys_but_rejects_duplicates_and_missing() {
    // entries whose keys name no declared field are ignored, as an options
    // hash with extra entries should be
    let extra = HostValue::Hash(vec![
        (HostValue::Str("x".to_owned()), HostValue::Int(1)),
        (HostValue::Str("a".to_owned()), HostValue::Int(2)),
        (HostValue::Sym("y".to_owned()), HostValue::Str("ignored".to_owned())),
    ]);
    assert_eq!(
        from_object(&extra, &Shape::Struct(a_fields())).unwrap(),
        Value::Struct(vec![("a".to_owned(), Value::I64(2))])
    );
    let duplicate = HostValue::Hash(vec![
        (HostValue::Str("a".to_owned()), HostValue::Int(1)),
        (HostValue::Sym("a".to_owned()), HostValue::Int(2)),
    ]);
    assert!(from_object(&duplicate, &Shape::Struct(a_fields())).is_err());
    let empty = HostValue::Hash(vec![]);
    assert!(from_object(&empty, &Shape::Struct(a_fields())).is_err());
    let only_unknown = HostValue::Hash(vec![(HostValue::Str("x".to_owned()), HostValue::Int(1))]);
    assert!(from_object(&only_unknown, &Shape::Struct(a_fields())).is_err());
}

#[test]
fn enum_newtype_variant_round_trip() {
    let shape = Shape::Enum(vec![
        ("Variant".to_owned(), VariantShape::Newtype(Box::new(Shape::I64))),
        ("Other".to_owned(), VariantShape::Unit),
    ]);
    let v = Value::NewtypeVariant("Variant".to_owned(), Box::new(Value::I64(5)));
    let host = new_ruby_object(&v).unwrap();
    assert_eq!(
        host,
        HostValue::Hash(vec![(HostValue::Sym("Variant".to_owned()), HostValue::Int(5))])
    );
    let got = from_object(&host, &shape).unwrap();
    assert_eq!(
        got,
        Value::NewtypeVariant("Variant".to_owned(), Box::new(Value::I64(5)))
    );
}

#[test]
fn enum_unit_variant_round_trips_through_the_bare_string() {
    let shape = Shape::Enum(vec![
        ("Variant".to_owned(), VariantShape::Newtype(Box::new(Shape::I64))),
        ("Other".to_owned(), VariantShape::Unit),
    ]);
    let v = Value::UnitVariant("Other".to_owned());
    let host = new_ruby_object(&v).unwrap();
    assert_eq!(host, HostValue::Str("Other".to_owned()));
    let got = from_object(&host, &shape).unwrap();
    assert_eq!(got, Value::UnitVariant("Other".to_owned()));
}

#[test]
fn enum_unknown_variant_fails() {
    let shape = Shape::Enum(vec![("Other".to_owned(), VariantShape::Unit)]);
    let host = HostValue::Str("Nope".to_owned());
    let e = from_object(&host, &shape).unwrap_err();
    assert!(matches!(e.kind(), rutie_serde::ErrorKind::Message(_)));
}

#[test]
fn unimplemented_shapes_fail_loudly() {
    // serializing a tuple variant or a struct variant
    let e = new_ruby_object(&Value::TupleVariant("T".to_owned(), vec![Value::I64(1)]))
        .unwrap_err();
    assert!(matches!(e.kind(), rutie_serde::ErrorKind::NotImplemented(_)));
    let e = new_ruby_object(&Value::StructVariant(
        "S".to_owned(),
        vec![("a".to_owned(), Value::I64(1))],
    ))
    .unwrap_err();
    assert!(matches!(e.kind(), rutie_serde::ErrorKind::NotImplemented(_)));
    // deserializing tuple and struct variants
    let shape = Shape::Enum(vec![
        ("T".to_owned(), VariantShape::Tuple(vec![Shape::I64])),
        ("S".to_owned(), VariantShape::Struct(vec![("a".to_owned(), Shape::I64)])),
    ]);
    let host = HostValue::Hash(vec![(
        HostValue::Sym("T".to_owned()),
        HostValue::Array(vec![HostValue::Int(1)]),
    )]);
    let e = from_object(&host, &shape).unwrap_err();
    assert!(matches!(e.kind(), rutie_serde::ErrorKind::NotImplemented(_)));
    let host = HostValue::Hash(vec![(
        HostValue::Sym("S".to_owned()),
        HostValue::Hash(vec![(HostValue::Sym("a".to_owned()), HostValue::Int(1))]),
    )]);
    let e = from_object(&host, &shape).unwrap_err();
    assert!(matches!(e.kind(), rutie_serde::ErrorKind::NotImplemented(_)));
}

#[test]
fn any_infers_by_runtime_class() {
    assert_eq!(from_object(&HostValue::Nil, &Shape::Any).unwrap(), Value::Unit);
    assert_eq!(
        from_object(&HostValue::Int(7), &Shape::Any).unwrap(),
        Value::I64(7)
    );
    assert_eq!(
        from_object(&HostValue::Bool(true), &Shape::Any).unwrap(),
        Value::Bool(true)
    );
    assert_eq!(
        from_object(&HostValue::Str("s".to_owned()), &Shape::Any).unwrap(),
        Value::Str("s".to_owned())
    );
    let arr = HostValue::Array(vec![HostValue::Int(1), HostValue::Nil]);
    assert_eq!(
        from_object(&arr, &Shape::Any).unwrap(),
        Value::Sequence(vec![Value::I64(1), Value::Unit])
    );
    // a symbol has no inference rule
    let e = from_object(&HostValue::Sym("s".to_owned()), &Shape::Any).unwrap_err();
    assert!(matches!(e.kind(), rutie_serde::ErrorKind::Message(_)));
}

#[test]
fn strings_decode_from_stringifiable_values() {
    assert_eq!(
        from_object(&HostValue::Int(-42), &Shape::Str).unwrap(),
        Value::Str("-42".to_owned())
    );
    assert_eq!(
        from_object(&HostValue::Int(i64::MIN), &Shape::Str).unwrap(),
        Value::Str("-9223372036854775808".to_owned())
    );
    assert_eq!(
        from_object(&HostValue::Bool(true), &Shape::Str).unwrap(),
        Value::Str("true".to_owned())
    );
    assert_eq!(
        from_object(&HostValue::Nil, &Shape::Str).unwrap(),
        Value::Str("".to_owned())
    );
}

#[test]
fn ignored_any_always_succeeds() {
    let host = HostValue::Object { class_name: "Weird".to_owned(), methods: vec![] };
    assert_eq!(from_object(&host, &Shape::IgnoredAny).unwrap(), Value::Missing);
}

#[test]
fn tuple_struct_decodes_like_a_tuple() {
    let host = HostValue::Array(vec![HostValue::Int(1), HostValue::Bool(true)]);
    let got = from_object(&host, &Shape::TupleStruct(vec![Shape::I64, Shape::Bool])).unwrap();
    assert_eq!(got, Value::Tuple(vec![Value::I64(1), Value::Bool(true)]));
    let short = HostValue::Array(vec![HostValue::Int(1)]);
    assert!(from_object(&short, &Shape::TupleStruct(vec![Shape::I64, Shape::I64])).is_err());
}

#[test]
fn float_accepts_the_integer_fallback() {
    // a native float carries its bit pattern through
    let host = HostValue::Float(1.5f64.to_bits());
    assert_eq!(
        from_object(&host, &Shape::F64).unwrap(),
        Value::F64(1.5f64.to_bits())
    );
    // a native integer is accepted and carried for the edge to coerce
    let host = HostValue::Int(-3);
    assert_eq!(from_object(&host, &Shape::F64).unwrap(), Value::F64FromInt(-3));
    assert_eq!(from_object(&host, &Shape::F32).unwrap(), Value::F64FromInt(-3));
    // and it round-trips through the host integer
    assert_eq!(
        round_trip(Value::F64FromInt(-3), Shape::F64),
        Value::F64FromInt(-3)
    );
    // anything else still fails
    let e = from_object(&HostValue::Str("x".to_owned()), &Shape::F64).unwrap_err();
    match e.kind() {
        rutie_serde::ErrorKind::Message(m) => {
            assert_eq!(m, "cannot deserialize String as float")
        },
        _ => panic!("wrong kind"),
    }
}

#[test]
fn failure_messages_name_class_and_target() {
    let e = from_object(&HostValue::Int(1), &Shape::Bool).unwrap_err();
    match e.kind() {
        rutie_serde::ErrorKind::Message(m) => {
            assert_eq!(m, "cannot deserialize Integer as boolean")
        },
        _ => panic!("wrong kind"),
    }
    let e = from_object(&HostValue::Bool(true), &Shape::I64).unwrap_err();
    match e.kind() {
        rutie_serde::ErrorKind::Message(m) => {
            assert_eq!(m, "cannot deserialize TrueClass as integer")
        },
        _ => panic!("wrong kind"),
    }
    let e = from_object(&HostValue::Int(1), &Shape::Bytes).unwrap_err();
    match e.kind() {
        rutie_serde::ErrorKind::Message(m) => {
            assert_eq!(m, "cannot deserialize Integer as bytes")
        },
        _ => panic!("wrong kind"),
    }
    let e = from_object(&HostValue::Int(1), &Shape::Unit).unwrap_err();
    match e.kind() {
        rutie_serde::ErrorKind::Message(m) => assert_eq!(m, "not unit"),
        _ => panic!("wrong kind"),
    }
    let e = from_object(&HostValue::Sym("s".to_owned()), &Shape::Any).unwrap_err();
    match e.kind() {
        rutie_serde::ErrorKind::Message(m) => {
            assert_eq!(m, "No rules to deserialize Symbol")
        },
        _ => panic!("wrong kind"),
    }
}

#[test]
fn duplicate_map_keys_store_last_write() {
    // the host's keyed write replaces an existing key's value, keeping its
    // place
    let v = Value::Mapping(vec![
        (Value::Str("k".to_owned()), Value::I64(1)),
        (Value::Str("m".to_owned()), Value::I64(5)),
        (Value::Str("k".to_owned()), Value::I64(2)),
    ]);
    let host = new_ruby_object(&v).unwrap();
    assert_eq!(
        host,
        HostValue::Hash(vec![
            (HostValue::Str("k".to_owned()), HostValue::Int(2)),
            (HostValue::Str("m".to_owned()), HostValue::Int(5)),
        ])
    );
}

#[test]
fn object_stringifies_through_its_own_method() {
    let host = HostValue::Object {
        class_name: "Widget".to_owned(),
        methods: vec![("to_s".to_owned(), HostValue::Str("Other".to_owned()))],
    };
    assert_eq!(
        from_object(&host, &Shape::Str).unwrap(),
        Value::Str("Other".to_owned())
    );
    // and such an object can carry a unit-variant tag
    let shape = Shape::Enum(vec![("Other".to_owned(), VariantShape::Unit)]);
    assert_eq!(
        from_object(&host, &shape).unwrap(),
        Value::UnitVariant("Other".to_owned())
    );
    // an object whose stringify answers nothing string-like still fails
    let silent = HostValue::Object { class_name: "Widget".to_owned(), methods: vec![] };
    assert!(from_object(&silent, &Shape::Str).is_err());
}
