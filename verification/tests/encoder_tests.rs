use key_path::KeyPath;
use teo::action::ActionType;
use teo::decoder::Decoder;
use teo::error::ActionError;
use teo::field::FieldType;
use teo::graph::EnumDef;
use teo::graph::Graph;
use teo::json::Json;
use teo::json::Number;
use teo::model::Model;
use teo::value::Date;
use teo::value::DateTime;
use teo::value::Decimal;
use teo::value::Env;
use teo::value::Object;
use teo::value::Source;
use teo::value::Value;

fn text(s: &str) -> Json {
    Json::String(s.to_string())
}

fn cannot() -> Result<Json, ActionError> {
    Err(ActionError::InternalServerError("Value cannot be written as JSON.".to_string()))
}

#[test]
fn scalars_are_written() {
    assert_eq!(Value::Null.to_json(), Ok(Json::Null));
    assert_eq!(Value::Bool(true).to_json(), Ok(Json::Bool(true)));
    assert_eq!(Value::String("a".to_string()).to_json(), Ok(text("a")));
    assert_eq!(Value::I8(-1).to_json(), Ok(Json::Number(Number::NegInt(-1))));
    assert_eq!(Value::I16(0).to_json(), Ok(Json::Number(Number::PosInt(0))));
    assert_eq!(Value::I32(7).to_json(), Ok(Json::Number(Number::PosInt(7))));
    assert_eq!(Value::I64(i64::MIN).to_json(), Ok(Json::Number(Number::NegInt(i64::MIN))));
    assert_eq!(Value::U8(255).to_json(), Ok(Json::Number(Number::PosInt(255))));
    assert_eq!(Value::U16(1).to_json(), Ok(Json::Number(Number::PosInt(1))));
    assert_eq!(Value::U32(1).to_json(), Ok(Json::Number(Number::PosInt(1))));
    assert_eq!(Value::U64(u64::MAX).to_json(), Ok(Json::Number(Number::PosInt(u64::MAX))));
    let half = Number::Float(0.5f64.to_bits());
    assert_eq!(Value::F32(half).to_json(), Ok(Json::Number(half)));
    assert_eq!(Value::F64(Number::NegInt(-2)).to_json(), Ok(Json::Number(Number::NegInt(-2))));
}

#[test]
fn wide_integers_are_numbers_or_digits() {
    assert_eq!(Value::I128(5).to_json(), Ok(Json::Number(Number::PosInt(5))));
    assert_eq!(Value::I128(-5).to_json(), Ok(Json::Number(Number::NegInt(-5))));
    assert_eq!(
        Value::I128(u64::MAX as i128 + 1).to_json(),
        Ok(text("18446744073709551616"))
    );
    assert_eq!(
        Value::I128(i64::MIN as i128 - 1).to_json(),
        Ok(text("-9223372036854775809"))
    );
    assert_eq!(Value::U128(u64::MAX as u128).to_json(), Ok(Json::Number(Number::PosInt(u64::MAX))));
    assert_eq!(
        Value::U128(u128::MAX).to_json(),
        Ok(text("340282366920938463463374607431768211455"))
    );
}

#[test]
fn object_id_date_instant_and_decimal_are_strings() {
    assert_eq!(
        Value::ObjectId([0x01, 0x23, 0x45, 0x67, 0x89, 0xab, 0xcd, 0xef, 0x00, 0xff, 0x10, 0x0a]).to_json(),
        Ok(text("0123456789abcdef00ff100a"))
    );
    assert_eq!(Value::Date(Date { year: 2022, month: 3, day: 4 }).to_json(), Ok(text("2022-03-04")));
    assert_eq!(Value::Date(Date { year: 2022, month: 2, day: 30 }).to_json(), cannot());
    assert_eq!(
        Value::DateTime(DateTime { seconds: 1646341567, nanos: 250_000_000 }).to_json(),
        Ok(text("2022-03-03T21:06:07.250+00:00"))
    );
    assert_eq!(Value::DateTime(DateTime { seconds: i64::MAX, nanos: 0 }).to_json(), cannot());
    assert_eq!(Value::Decimal(Decimal { mantissa: 150, scale: 2 }).to_json(), Ok(text("1.50")));
    assert_eq!(Value::Decimal(Decimal { mantissa: -1, scale: 3 }).to_json(), Ok(text("-0.001")));
    assert_eq!(Value::Decimal(Decimal { mantissa: 1, scale: 29 }).to_json(), cannot());
    assert_eq!(Value::Decimal(Decimal { mantissa: 1i128 << 96, scale: 0 }).to_json(), cannot());
}

#[test]
fn collections_are_arrays_and_objects() {
    let items = || vec![Value::I32(1), Value::Null];
    let array = Json::Array(vec![Json::Number(Number::PosInt(1)), Json::Null]);
    assert_eq!(Value::Vec(items()).to_json(), Ok(Json::Array(vec![Json::Number(Number::PosInt(1)), Json::Null])));
    assert_eq!(Value::HashSet(items()).to_json(), Ok(Json::Array(vec![Json::Number(Number::PosInt(1)), Json::Null])));
    assert_eq!(Value::BTreeSet(items()).to_json(), Ok(array));
    let entries = || vec![("b".to_string(), Value::Bool(true)), ("a".to_string(), Value::Vec(vec![]))];
    let members = || Json::Object(vec![("b".to_string(), Json::Bool(true)), ("a".to_string(), Json::Array(vec![]))]);
    assert_eq!(Value::HashMap(entries()).to_json(), Ok(members()));
    assert_eq!(Value::BTreeMap(entries()).to_json(), Ok(members()));
    let object = Object {
        model: "M".to_string(),
        values: entries(),
        previous_values: Vec::new(),
        selected_fields: Vec::new(),
        included_relations: Vec::new(),
        is_new: true,
        is_modified: false,
        is_deleted: false,
        dirty_fields: Vec::new(),
        env: Env { source: Source::Unknown, intent: ActionType::FindMany, path: KeyPath::default(), map: Vec::new() },
    };
    assert_eq!(Value::Object(object).to_json(), Ok(members()));
    let broken = Value::Vec(vec![Value::I32(1), Value::Date(Date { year: 1, month: 0, day: 1 })]);
    assert_eq!(broken.to_json(), cannot());
    let broken = Value::HashMap(vec![("d".to_string(), Value::Decimal(Decimal { mantissa: 1, scale: 99 }))]);
    assert_eq!(broken.to_json(), cannot());
    assert_eq!(
        teo::encoder::entries_json(&entries()),
        Ok(vec![("b".to_string(), Json::Bool(true)), ("a".to_string(), Json::Array(vec![]))])
    );
}

fn graph() -> Graph {
    let colors = EnumDef { name: "Color".to_string(), values: vec!["red".to_string()] };
    Graph::new(Vec::<Model>::new(), vec![colors], String::new())
}

fn round_trip(ty: FieldType, optional: bool, json: Json) {
    let decoded = Decoder::decode_value_for_field_type(&graph(), &ty, optional, &json, &KeyPath::default());
    assert_eq!(decoded.unwrap().to_json(), Ok(json));
}

#[test]
fn plain_scalars_are_written_as_they_were_read() {
    round_trip(FieldType::Bool, false, Json::Bool(false));
    round_trip(FieldType::I8, false, Json::Number(Number::NegInt(-128)));
    round_trip(FieldType::I16, false, Json::Number(Number::PosInt(32767)));
    round_trip(FieldType::I32, false, Json::Number(Number::PosInt(0)));
    round_trip(FieldType::I64, false, Json::Number(Number::NegInt(i64::MIN)));
    round_trip(FieldType::I128, false, Json::Number(Number::PosInt(u64::MAX)));
    round_trip(FieldType::U8, false, Json::Number(Number::PosInt(255)));
    round_trip(FieldType::U16, false, Json::Number(Number::PosInt(65535)));
    round_trip(FieldType::U32, false, Json::Number(Number::PosInt(1)));
    round_trip(FieldType::U64, false, Json::Number(Number::PosInt(u64::MAX)));
    round_trip(FieldType::U128, false, Json::Number(Number::PosInt(3)));
    round_trip(FieldType::F32, false, Json::Number(Number::Float(0.1f64.to_bits())));
    round_trip(FieldType::F64, false, Json::Number(Number::NegInt(-3)));
    round_trip(FieldType::String, false, text("né"));
    round_trip(FieldType::Enum("Color"), false, text("red"));
    round_trip(FieldType::String, true, Json::Null);
    round_trip(FieldType::I128, false, text("170141183460469231731687303715884105727"));
}

#[test]
fn other_scalars_are_written_in_their_normal_form() {
    round_trip(FieldType::ObjectId, false, text("0123456789abcdef01234567"));
    round_trip(FieldType::Date, false, text("2022-03-04"));
    round_trip(FieldType::Decimal, false, text("1.50"));
    let g = graph();
    let read = |ty: FieldType, s: &str| {
        Decoder::decode_value_for_field_type(&g, &ty, false, &text(s), &KeyPath::default())
            .unwrap()
            .to_json()
    };
    assert_eq!(read(FieldType::ObjectId, "0123456789ABCDEF01234567"), Ok(text("0123456789abcdef01234567")));
    assert_eq!(
        read(FieldType::DateTime, "2022-03-04T05:06:07+08:00"),
        Ok(text("2022-03-03T21:06:07+00:00"))
    );
    assert_eq!(read(FieldType::I128, "12"), Ok(Json::Number(Number::PosInt(12))));
}
