use json_size::sizeof_val;
use json_size::JsonStr;
use json_size::JsonValue;
use json_size::STRING_OVERHEAD;

/// The size-relevant data of a freshly parsed string: the buffer a JSON
/// parser allocates holds exactly the text, as `String::from` does.
fn str_of(text: &str) -> JsonStr {
    let s = String::from(text);
    JsonStr { len: s.len(), capacity: s.capacity() }
}

#[test]
fn test_sizeof_val_null() {
    let val = JsonValue::Null;
    assert_eq!(sizeof_val(&val), std::mem::size_of::<serde_json::Value>());
}

#[test]
fn test_sizeof_val_bool() {
    let val = JsonValue::Bool(true);
    assert_eq!(sizeof_val(&val), std::mem::size_of::<serde_json::Value>());
}

#[test]
fn test_sizeof_val_number() {
    let val = JsonValue::Number(42);
    assert_eq!(sizeof_val(&val), std::mem::size_of::<serde_json::Value>());
}

#[test]
fn test_sizeof_val_string() {
    let val = JsonValue::Str(str_of("Hello, world!"));
    let expected_size = std::mem::size_of::<serde_json::Value>()
        + String::from("Hello, world!").capacity()
        + STRING_OVERHEAD;
    assert_eq!(sizeof_val(&val), expected_size);
}

#[test]
fn test_sizeof_val_array() {
    let val = JsonValue::Array(vec![
        JsonValue::Number(1),
        JsonValue::Number(2),
        JsonValue::Number(3),
    ]);
    let expected_size = std::mem::size_of::<serde_json::Value>()
        + sizeof_val(&JsonValue::Number(1))
        + sizeof_val(&JsonValue::Number(2))
        + sizeof_val(&JsonValue::Number(3));
    assert_eq!(sizeof_val(&val), expected_size);
}

#[test]
fn test_sizeof_val_object() {
    let val = JsonValue::Object(vec![(str_of("key"), JsonValue::Str(str_of("value")))]);
    let expected_size = std::mem::size_of::<serde_json::Value>()
        + String::from("key").capacity()
        + sizeof_val(&JsonValue::Str(str_of("value")))
        + std::mem::size_of::<String>()
        + std::mem::size_of::<usize>() * 3;
    assert_eq!(sizeof_val(&val), expected_size);
}

#[test]
fn test_sizeof_val_complex_object() {
    let details = || {
        JsonValue::Object(vec![
            (str_of("year"), JsonValue::Number(2022)),
            (str_of("version"), JsonValue::Str(str_of("v4"))),
        ])
    };
    let val = JsonValue::Object(vec![
        (str_of("name"), JsonValue::Str(str_of("json_size"))),
        (str_of("details"), details()),
    ]);
    let expected_size = std::mem::size_of::<serde_json::Value>()
        + String::from("name").capacity()
        + sizeof_val(&JsonValue::Str(str_of("json_size")))
        + String::from("details").capacity()
        + sizeof_val(&details())
        + std::mem::size_of::<String>() * 2
        + std::mem::size_of::<usize>() * 6;
    assert_eq!(sizeof_val(&val), expected_size);
}
