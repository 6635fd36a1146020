use rutie_serde::de::{EnumAccess, HashAccess, ObjectAccess, SeqAccess};
use rutie_serde::ser::MapSerializer;
use rutie_serde::{from_object, Error, ErrorKind, HostValue, ResultExt, Shape, Value};
use rutie_serde::DeserializeWrapper;
use rutie_serde::IntoException;

#[test]
fn error_context_accumulates_in_push_order() {
    let e = Error::from_message("root".to_owned());
    let e = e.chain_context(|| "inner".to_owned());
    let e = e.chain_context(|| "outer".to_owned());
    assert_eq!(e.context().as_slice(), &["inner".to_owned(), "outer".to_owned()]);
    assert_eq!(
        e.describe_context(),
        "\nContext from Rust:\n - inner\n - outer"
    );
}

#[test]
fn result_ext_leaves_success_untouched() {
    let ok: Result<i64, Error> = Ok(5);
    assert_eq!(ok.chain_context(|| "never".to_owned()).unwrap(), 5);
    let err: Result<i64, Error> = Err(Error::from_message("boom".to_owned()));
    let e = err.chain_context(|| "step".to_owned()).unwrap_err();
    assert_eq!(e.context().as_slice(), &["step".to_owned()]);
}

#[test]
fn error_rendering() {
    let e = Error::from_message("boom".to_owned()).with_context("step".to_owned());
    assert_eq!(e.description(), "Generic Error");
    assert_eq!(e.display_string(), "boom\n\nContext from Rust:\n - step");
    assert!(!e.is_foreign_exception());
    assert_eq!(e.exception_message(), "boom\n\nContext from Rust:\n - step");

    let f = Error::from_kind(ErrorKind::RutieException("kaput".to_owned()))
        .with_context("step".to_owned());
    assert_eq!(f.description(), "Rutie Exception");
    assert!(f.is_foreign_exception());
    assert_eq!(f.exception_message(), "kaput\nContext from Rust:\n - step");

    let g = Error::from_kind(ErrorKind::NotImplemented("gap".to_owned()));
    assert_eq!(g.description(), "gap");
    assert_eq!(g.describe_context(), "");

    let h = Error::from_kind(ErrorKind::RutieException("kaput".to_owned()))
        .with_context("step".to_owned());
    let (reuse, msg) = h.into_exception();
    assert!(reuse);
    assert_eq!(msg, "kaput\nContext from Rust:\n - step");
    let i = Error::from_message("boom".to_owned());
    let (reuse, msg) = i.into_exception();
    assert!(!reuse);
    assert_eq!(msg, "boom\n");
}

#[test]
fn deep_failure_carries_the_full_path() {
    // a struct whose field holds an array of structs; element 2's field
    // `bar` is a string where an integer is expected
    let good = HostValue::Hash(vec![(HostValue::Str("bar".to_owned()), HostValue::Int(1))]);
    let good2 = HostValue::Hash(vec![(HostValue::Str("bar".to_owned()), HostValue::Int(2))]);
    let bad = HostValue::Hash(vec![(
        HostValue::Str("bar".to_owned()),
        HostValue::Str("oops".to_owned()),
    )]);
    let host = HostValue::Hash(vec![(
        HostValue::Str("items".to_owned()),
        HostValue::Array(vec![good, good2, bad]),
    )]);
    let inner = Shape::Struct(vec![("bar".to_owned(), Shape::I64)]);
    let shape = Shape::Struct(vec![(
        "items".to_owned(),
        Shape::Sequence(Box::new(inner)),
    )]);
    let e = from_object(&host, &shape).unwrap_err();
    assert!(matches!(e.kind(), ErrorKind::Message(_)));
    // innermost context first: the field, then the element, then the
    // enclosing field
    assert_eq!(
        e.context().as_slice(),
        &[
            "While deserializing bar".to_owned(),
            "While deserializing element 2".to_owned(),
            "While deserializing items".to_owned(),
        ]
    );
}

#[test]
fn seq_cursor_reports_exhaustion_exactly_once() {
    let arr = vec![HostValue::Int(1), HostValue::Int(2)];
    let mut cur = SeqAccess::new(&arr);
    assert_eq!(cur.size_hint(), 2);
    assert_eq!(cur.next_element(), Some(&HostValue::Int(1)));
    assert_eq!(cur.next_element(), Some(&HostValue::Int(2)));
    assert_eq!(cur.size_hint(), 0);
    assert_eq!(cur.next_element(), None);
    // an exhausted cursor stays exhausted and never re-visits an index
    assert_eq!(cur.next_element(), None);
    assert_eq!(cur.pos, 2);
}

#[test]
fn hash_cursor_reports_exhaustion_and_finds_values() {
    let pairs = vec![
        (HostValue::Str("a".to_owned()), HostValue::Int(1)),
        (HostValue::Str("b".to_owned()), HostValue::Int(2)),
    ];
    let mut cur = HashAccess::new(&pairs);
    assert_eq!(cur.size_hint(), 2);
    assert_eq!(cur.next_key(), Some(&HostValue::Str("a".to_owned())));
    assert_eq!(cur.next_value().unwrap(), &HostValue::Int(1));
    assert_eq!(cur.next_key(), Some(&HostValue::Str("b".to_owned())));
    assert_eq!(cur.next_value().unwrap(), &HostValue::Int(2));
    assert_eq!(cur.next_key(), None);
    assert_eq!(cur.next_key(), None);
    assert_eq!(cur.pos, 2);
}

#[test]
fn missing_map_key_fails_with_context_naming_the_key() {
    let pairs = vec![(HostValue::Str("a".to_owned()), HostValue::Int(1))];
    let absent = HostValue::Str("b".to_owned());
    let mut cur = HashAccess::new(&pairs);
    assert_eq!(cur.next_key(), Some(&HostValue::Str("a".to_owned())));
    // the container changed under the cursor: its current key is not there
    cur.current_key = Some(&absent);
    let e = cur.next_value().unwrap_err();
    assert!(matches!(e.kind(), ErrorKind::RutieException(_)));
    assert_eq!(
        e.context().as_slice(),
        &["While deserializing key b".to_owned()]
    );
    // the failed lookup did not advance the cursor
    assert_eq!(cur.pos, 0);
}

#[test]
fn object_cursor_drives_the_declared_fields() {
    let methods = vec![
        ("a".to_owned(), HostValue::Int(1)),
        ("b".to_owned(), HostValue::Int(2)),
    ];
    let fields = vec![("a".to_owned(), Shape::I64), ("b".to_owned(), Shape::I64)];
    let mut cur = ObjectAccess::new(&methods, &fields);
    assert_eq!(cur.next_key(), Some(&"a".to_owned()));
    assert_eq!(cur.next_value().unwrap(), &HostValue::Int(1));
    assert_eq!(cur.next_key(), Some(&"b".to_owned()));
    assert_eq!(cur.next_value().unwrap(), &HostValue::Int(2));
    assert_eq!(cur.next_key(), None);
}

#[test]
fn object_without_the_method_fails_as_a_host_dispatch() {
    let host = HostValue::Object { class_name: "Thing".to_owned(), methods: vec![] };
    let shape = Shape::Struct(vec![("a".to_owned(), Shape::I64)]);
    let e = from_object(&host, &shape).unwrap_err();
    assert!(matches!(e.kind(), ErrorKind::RutieException(_)));
    assert_eq!(
        e.context().as_slice(),
        &["While deserializing a".to_owned()]
    );
}

#[test]
fn enum_cursor_splits_tag_and_payload() {
    let host = HostValue::Hash(vec![(
        HostValue::Sym("Variant".to_owned()),
        HostValue::Int(5),
    )]);
    let ea = EnumAccess::new(&host);
    let (tag, va) = ea.variant().unwrap();
    assert_eq!(tag, "Variant");
    assert_eq!(va.object, &HostValue::Int(5));
    assert!(va.unit_variant().is_ok());
    assert!(matches!(
        va.tuple_variant().unwrap_err().kind(),
        ErrorKind::NotImplemented(_)
    ));
    assert!(matches!(
        va.struct_variant().unwrap_err().kind(),
        ErrorKind::NotImplemented(_)
    ));
}

#[test]
fn map_builder_requires_a_key_before_each_value() {
    let mut ser = MapSerializer::new();
    let e = ser.serialize_value(&Value::I64(1)).unwrap_err();
    match e.kind() {
        ErrorKind::Message(m) => assert_eq!(m, "no key given"),
        _ => panic!("wrong kind"),
    }
    ser.serialize_key(&Value::Str("k".to_owned())).unwrap();
    ser.serialize_value(&Value::I64(1)).unwrap();
    // a second value under the same cached key replaces the first
    ser.serialize_value(&Value::I64(9)).unwrap();
    let host = ser.end().unwrap();
    assert_eq!(
        host,
        HostValue::Hash(vec![(HostValue::Str("k".to_owned()), HostValue::Int(9))])
    );
}

#[test]
fn panic_message_slot_round_trip() {
    let mut slot: Option<String> = None;
    rutie_serde::save_panic_message(&mut slot, "it broke".to_owned());
    assert_eq!(
        rutie_serde::panics::take_panic_message(&mut slot),
        "it broke"
    );
    assert_eq!(slot, None);
    assert_eq!(
        rutie_serde::panics::take_panic_message(&mut slot),
        "Unknown error"
    );
}

#[test]
fn per_shape_decode_methods() {
    let de = rutie_serde::Deserializer::new(&HostValue::Int(300));
    assert_eq!(de.deserialize_i8().unwrap(), Value::I64(300));
    assert_eq!(de.deserialize_u16().unwrap(), Value::U32(300));
    assert_eq!(de.deserialize_u64().unwrap(), Value::U64(300));
    assert_eq!(de.deserialize_string().unwrap(), Value::Str("300".to_owned()));
    assert_eq!(de.deserialize_any().unwrap(), Value::I64(300));
    assert_eq!(de.deserialize_ignored_any().unwrap(), Value::Missing);
    assert!(de.deserialize_bool().is_err());
    let nil = rutie_serde::Deserializer::new(&HostValue::Nil);
    assert_eq!(nil.deserialize_option(&Shape::I64).unwrap(), Value::Missing);
    assert_eq!(nil.deserialize_unit().unwrap(), Value::Unit);
    let arr = rutie_serde::Deserializer::new(&HostValue::Array(vec![HostValue::Int(1)]));
    assert_eq!(
        arr.deserialize_seq(&Shape::I64).unwrap(),
        Value::Sequence(vec![Value::I64(1)])
    );
    assert_eq!(
        arr.deserialize_tuple_struct(&vec![Shape::I64]).unwrap(),
        Value::Tuple(vec![Value::I64(1)])
    );
    assert_eq!(arr.deserialize_f64().unwrap_err().context().len(), 0);
}

#[test]
fn serializer_entry_methods() {
    let ser = rutie_serde::Serializer;
    assert_eq!(ser.serialize_bool(true).unwrap(), HostValue::Bool(true));
    assert_eq!(ser.serialize_i8(-5).unwrap(), HostValue::Int(-5));
    assert_eq!(ser.serialize_u32(7).unwrap(), HostValue::Int(7));
    assert_eq!(ser.serialize_u64(u64::MAX).unwrap(), HostValue::Int(-1));
    assert_eq!(
        ser.serialize_f64(2.5f64.to_bits()).unwrap(),
        HostValue::Float(2.5f64.to_bits())
    );
    assert_eq!(ser.serialize_char('x').unwrap(), HostValue::Str("x".to_owned()));
    assert_eq!(ser.serialize_str("hi").unwrap(), HostValue::Str("hi".to_owned()));
    assert_eq!(ser.serialize_none().unwrap(), HostValue::Nil);
    assert_eq!(ser.serialize_unit_struct().unwrap(), HostValue::Nil);
    assert_eq!(
        ser.serialize_unit_variant("Other").unwrap(),
        HostValue::Str("Other".to_owned())
    );
    assert_eq!(
        ser.serialize_newtype_variant("Variant", &Value::I64(5)).unwrap(),
        HostValue::Hash(vec![(HostValue::Sym("Variant".to_owned()), HostValue::Int(5))])
    );
    let mut sb = ser.serialize_seq();
    sb.serialize_element(&Value::I64(1)).unwrap();
    sb.serialize_element(&Value::I64(2)).unwrap();
    assert_eq!(
        sb.end().unwrap(),
        HostValue::Array(vec![HostValue::Int(1), HostValue::Int(2)])
    );
    let mut mb = ser.serialize_struct();
    mb.serialize_field("a", &Value::I64(1)).unwrap();
    assert_eq!(
        mb.end().unwrap(),
        HostValue::Hash(vec![(HostValue::Sym("a".to_owned()), HostValue::Int(1))])
    );
    assert!(matches!(
        ser.serialize_tuple_variant().unwrap_err().kind(),
        ErrorKind::NotImplemented(_)
    ));
    assert!(matches!(
        ser.serialize_struct_variant().unwrap_err().kind(),
        ErrorKind::NotImplemented(_)
    ));
}

#[test]
fn deserializer_and_wrapper_entry_points() {
    let host = HostValue::Int(11);
    let de = rutie_serde::Deserializer::new(&host);
    assert_eq!(de.deserialize(&Shape::I64).unwrap(), Value::I64(11));
    let v: Value = DeserializeWrapper::deserialize((&host, &Shape::I64)).unwrap();
    assert_eq!(v, Value::I64(11));
    let copy: HostValue = DeserializeWrapper::deserialize(&host).unwrap();
    assert_eq!(copy, HostValue::Int(11));
}
