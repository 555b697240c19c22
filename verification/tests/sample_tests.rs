use console_logger::sample::{TestEnum, TestStruct};
use serde_json::{Number, Value};

fn record_to_json(record: &TestStruct) -> Value {
    let mut fields = serde_json::Map::new();
    let names = record.names.iter().map(|name| Value::String(name.clone())).collect();
    fields.insert("names".to_string(), Value::Array(names));
    fields.insert("id".to_string(), Value::Number(Number::from_u128(record.id).unwrap()));
    Value::Object(fields)
}

fn record_from_json(value: &Value) -> Option<TestStruct> {
    let fields = value.as_object()?;
    let mut names = Vec::new();
    for name in fields.get("names")?.as_array()? {
        names.push(name.as_str()?.to_string());
    }
    Some(TestStruct { names, id: fields.get("id")?.as_number()?.as_u128()? })
}

fn sample_to_json(sample: &TestEnum) -> Value {
    let (tag, data) = match sample {
        TestEnum::Test1 { wow, no } => {
            let mut fields = serde_json::Map::new();
            fields.insert("wow".to_string(), Value::Number(Number::from_u128(*wow).unwrap()));
            fields.insert("no".to_string(), Value::String(no.clone()));
            ("Test1", Value::Object(fields))
        }
        TestEnum::Test2(record) => ("Test2", record_to_json(record)),
    };
    let mut tagged = serde_json::Map::new();
    tagged.insert("type".to_string(), Value::String(tag.to_string()));
    tagged.insert("data".to_string(), data);
    Value::Object(tagged)
}

fn sample_from_json(value: &Value) -> Option<TestEnum> {
    let tagged = value.as_object()?;
    let data = tagged.get("data")?;
    match tagged.get("type")?.as_str()? {
        "Test1" => {
            let fields = data.as_object()?;
            Some(TestEnum::Test1 {
                wow: fields.get("wow")?.as_number()?.as_u128()?,
                no: fields.get("no")?.as_str()?.to_string(),
            })
        }
        "Test2" => Some(TestEnum::Test2(record_from_json(data)?)),
        _ => None,
    }
}

fn through_text(sample: &TestEnum) -> TestEnum {
    let text = serde_json::to_string(&sample_to_json(sample)).unwrap();
    let read: Value = serde_json::from_str(&text).unwrap();
    sample_from_json(&read).unwrap()
}

fn wrapped_record() -> TestEnum {
    TestEnum::Test2(TestStruct {
        names: vec![
            "Filip".to_string(),
            "cxzczx".to_string(),
            "ewqewqgrhegfhejrwkhgkrfjewhkj".to_string(),
        ],
        id: 582948912849169420,
    })
}

#[test]
fn wrapped_record_survives_the_round_trip() {
    let written = wrapped_record();
    let restored = through_text(&written);
    assert_eq!(restored, written);
    match restored {
        TestEnum::Test2(record) => {
            assert_eq!(record.names, ["Filip", "cxzczx", "ewqewqgrhegfhejrwkhgkrfjewhkj"]);
            assert_eq!(record.id, 582948912849169420);
        }
        TestEnum::Test1 { .. } => panic!("the shape changed"),
    }
}

#[test]
fn wrapped_record_is_written_with_tag_and_payload() {
    let text = serde_json::to_string(&sample_to_json(&wrapped_record())).unwrap();
    let read: Value = serde_json::from_str(&text).unwrap();
    assert_eq!(read["type"], Value::String("Test2".to_string()));
    assert_eq!(read["data"]["id"].as_u64(), Some(582948912849169420));
    assert_eq!(read["data"]["names"][2].as_str(), Some("ewqewqgrhegfhejrwkhgkrfjewhkj"));
}

#[test]
fn direct_shape_survives_the_round_trip() {
    let written = TestEnum::Test1 { wow: 18446744073709551615, no: "no \"way\"\n\u{e9}".to_string() };
    assert_eq!(through_text(&written), written);
    let empty = TestEnum::Test1 { wow: 0, no: String::new() };
    assert_eq!(through_text(&empty), empty);
}

#[test]
fn record_without_names_survives_the_round_trip() {
    let written = TestEnum::Test2(TestStruct { names: Vec::new(), id: 0 });
    assert_eq!(through_text(&written), written);
}

#[test]
fn equal_samples_hold_the_same_in_every_field() {
    assert_eq!(wrapped_record(), wrapped_record());
    let one = TestEnum::Test1 { wow: 7, no: "x".to_string() };
    let same = TestEnum::Test1 { wow: 7, no: "x".to_string() };
    assert!(one == same);
}

#[test]
fn samples_differ_where_a_field_differs() {
    let one = TestEnum::Test1 { wow: 7, no: "x".to_string() };
    assert_ne!(one, TestEnum::Test1 { wow: 8, no: "x".to_string() });
    assert_ne!(one, TestEnum::Test1 { wow: 7, no: "y".to_string() });
    assert_ne!(one, TestEnum::Test1 { wow: 7, no: String::new() });
}

#[test]
fn samples_of_different_shape_differ() {
    let direct = TestEnum::Test1 { wow: 0, no: String::new() };
    let wrapped = TestEnum::Test2(TestStruct { names: Vec::new(), id: 0 });
    assert_ne!(direct, wrapped);
    assert_ne!(wrapped, direct);
}

#[test]
fn records_differ_by_identifier_names_and_their_order() {
    let record = |names: &[&str], id: u128| TestStruct {
        names: names.iter().map(|name| name.to_string()).collect(),
        id,
    };
    assert_eq!(record(&["a", "b"], 1), record(&["a", "b"], 1));
    assert_ne!(record(&["a", "b"], 1), record(&["a", "b"], 2));
    assert_ne!(record(&["a", "b"], 1), record(&["b", "a"], 1));
    assert_ne!(record(&["a", "b"], 1), record(&["a"], 1));
    assert_ne!(record(&["a"], 1), record(&["a", "b"], 1));
    assert_ne!(record(&["a", "b"], 1), record(&["a", "c"], 1));
    assert_ne!(record(&[], 1), record(&[""], 1));
    assert_eq!(record(&[], u128::MAX), record(&[], u128::MAX));
    assert_ne!(record(&[], u128::MAX), record(&[], u128::MAX - 1));
}
