use cypher_dto::{
    bind_number, narrow_number, Error, FieldType, FieldValue, Kind, Num, Number, Scalar,
    Timestamp, Value,
};

fn required(kind: Kind) -> FieldType {
    FieldType {
        kind,
        optional: false,
    }
}

fn optional(kind: Kind) -> FieldType {
    FieldType {
        kind,
        optional: true,
    }
}

fn round_trip(t: FieldType, v: FieldValue) {
    let stored = cypher_dto::encode_field(&v);
    assert_eq!(cypher_dto::read_field(t, "x", Some(stored)), Ok(v));
}

#[test]
fn round_trip_every_kind() {
    let numbers = [
        Number::I8(-8),
        Number::I16(-16),
        Number::I32(-32),
        Number::I64(i64::MIN),
        Number::I128(128),
        Number::U8(255),
        Number::U16(16),
        Number::U32(u32::MAX),
        Number::U64(i64::MAX as u64),
        Number::U128(128),
        Number::Isize(-7),
        Number::Usize(7),
    ];
    for n in numbers {
        let kind = Kind::Number(cypher_dto::number_kind_of(&n));
        round_trip(required(kind), FieldValue::Number(n));
        round_trip(optional(kind), FieldValue::Number(n));
    }
    round_trip(
        required(Kind::Number(Num::F64)),
        FieldValue::Float(2.5f64.to_bits()),
    );
    round_trip(
        optional(Kind::Number(Num::F32)),
        FieldValue::Float((1.5f32 as f64).to_bits()),
    );
    round_trip(required(Kind::Text), FieldValue::Text("hi".to_owned()));
    round_trip(required(Kind::Boolean), FieldValue::Bool(true));
    let t = Timestamp {
        secs: 1_700_000_000,
        nanos: 5,
    };
    round_trip(required(Kind::DateTimeUtc), FieldValue::DateTime(t));
    round_trip(
        required(Kind::Collection),
        FieldValue::List(vec![Scalar::Text("red".to_owned()), Scalar::Int(3)]),
    );
    round_trip(required(Kind::Other), FieldValue::Other(Value::Int(9)));
    round_trip(optional(Kind::Text), FieldValue::Absent);
}

#[test]
fn binding_widens_and_wraps() {
    assert_eq!(bind_number(Number::U8(200)), 200);
    assert_eq!(bind_number(Number::I32(-5)), -5);
    assert_eq!(bind_number(Number::U64(u64::MAX)), -1);
    assert_eq!(bind_number(Number::I128(1 << 64)), 0);
}

#[test]
fn narrowing_is_checked() {
    assert_eq!(narrow_number(Num::U8, 255), Some(Number::U8(255)));
    assert_eq!(narrow_number(Num::U8, 256), None);
    assert_eq!(narrow_number(Num::I8, -129), None);
    assert_eq!(narrow_number(Num::U64, -1), None);
    assert_eq!(narrow_number(Num::U128, 5), Some(Number::U128(5)));
    assert_eq!(narrow_number(Num::F64, 5), None);
}

#[test]
fn read_errors() {
    assert_eq!(
        cypher_dto::read_field(required(Kind::Text), "name", None),
        Err(Error::MissingField("name".to_owned()))
    );
    assert_eq!(
        cypher_dto::read_field(required(Kind::Text), "name", Some(Value::Null)),
        Err(Error::MissingField("name".to_owned()))
    );
    assert_eq!(
        cypher_dto::read_field(required(Kind::Text), "name", Some(Value::Int(1))),
        Err(Error::TypeMismatch("name".to_owned()))
    );
    assert_eq!(
        cypher_dto::read_field(required(Kind::Number(Num::U8)), "age", Some(Value::Int(300))),
        Err(Error::TypeMismatch("age".to_owned()))
    );
    assert_eq!(
        cypher_dto::read_field(optional(Kind::Number(Num::U8)), "age", Some(Value::Int(300))),
        Ok(FieldValue::Absent)
    );
    assert_eq!(
        cypher_dto::read_field(required(Kind::Number(Num::I32)), "n", Some(Value::Float(0))),
        Err(Error::TypeMismatch("n".to_owned()))
    );
    assert_eq!(
        cypher_dto::read_field(optional(Kind::Boolean), "b", None),
        Ok(FieldValue::Absent)
    );
}

#[test]
fn num_casts() {
    assert_eq!(Num::U8.param_cast(), Some(Num::I16));
    assert_eq!(Num::U64.param_cast(), Some(Num::I64));
    assert_eq!(Num::I32.param_cast(), None);
    assert!(Num::U32.map_uses_try_from());
    assert!(!Num::I64.map_uses_try_from());
    assert!(!Num::F32.map_uses_try_from());
    assert_eq!(Num::F32.map_getter_type_arg(), Some(Num::F64));
    assert_eq!(Num::I64.map_getter_type_arg(), None);
    assert_eq!(Num::U16.map_getter_type_arg(), Some(Num::I64));
    assert_eq!(Num::F32.map_cast(), Some(Num::F32));
    assert_eq!(Num::F64.map_cast(), None);
}
