use gateway_unlock::envelope::{normalize, Envelope, ShapeError};
use gateway_unlock::json::{Json, JsonFields, JsonList};

fn obj(pairs: Vec<(&str, Json)>) -> Json {
    let mut fields = JsonFields::Nil;
    for (key, value) in pairs.into_iter().rev() {
        fields = JsonFields::Cons(key.to_string(), value, Box::new(fields));
    }
    Json::Obj(Box::new(fields))
}

fn arr(items: Vec<Json>) -> Json {
    let mut list = JsonList::Nil;
    for item in items.into_iter().rev() {
        list = JsonList::Cons(item, Box::new(list));
    }
    Json::Arr(Box::new(list))
}

fn envelope_body(code: i64, message: &str, data: Json) -> Json {
    obj(vec![
        ("code", Json::Int(code)),
        ("message", Json::Str(message.to_string())),
        ("data", data),
    ])
}

fn assert_envelope(env: &Envelope, code: i64, message: &str) {
    assert_eq!(env.code, code);
    assert_eq!(env.message, message);
}

#[test]
fn normalize_object_shape() {
    let body = envelope_body(0, "ok", Json::Int(5));
    let env = normalize(&body).expect("object shape must normalize");
    assert_envelope(&env, 0, "ok");
    assert!(matches!(env.payload, Json::Int(5)));
}

#[test]
fn normalize_array_shape_takes_first() {
    let body = arr(vec![
        obj(vec![
            ("id", Json::Int(1)),
            ("result", envelope_body(0, "ok", Json::Int(5))),
        ]),
        obj(vec![
            ("id", Json::Int(2)),
            ("result", envelope_body(7, "bad", Json::Int(6))),
        ]),
    ]);
    let env = normalize(&body).expect("array shape must normalize");
    assert_envelope(&env, 0, "ok");
    assert!(matches!(env.payload, Json::Int(5)));
}

#[test]
fn normalize_empty_array_fails() {
    let body = arr(vec![]);
    match normalize(&body) {
        Err(ShapeError::EmptyResultSet) => {}
        _ => panic!("an empty result array must fail normalization"),
    }
}

#[test]
fn normalize_rejects_array_with_malformed_element() {
    let body = arr(vec![obj(vec![("id", Json::Int(1))])]);
    match normalize(&body) {
        Err(ShapeError::Unrecognized) => {}
        _ => panic!("an array whose element lacks a result must be rejected"),
    }
}

#[test]
fn normalize_rejects_object_missing_field() {
    let body = obj(vec![("code", Json::Int(0)), ("data", Json::Null)]);
    match normalize(&body) {
        Err(ShapeError::Unrecognized) => {}
        _ => panic!("an envelope without a message must be rejected"),
    }
}

#[test]
fn normalize_rejects_non_integer_code() {
    let body = obj(vec![
        ("code", Json::Str("0".to_string())),
        ("message", Json::Str("ok".to_string())),
        ("data", Json::Null),
    ]);
    match normalize(&body) {
        Err(ShapeError::Unrecognized) => {}
        _ => panic!("a string status code must be rejected"),
    }
}

#[test]
fn shape_equivalence_on_equal_envelopes() {
    let plain = envelope_body(3, "warn", Json::Str("p".to_string()));
    let wrapped = arr(vec![obj(vec![
        ("id", Json::Int(9)),
        ("result", envelope_body(3, "warn", Json::Str("p".to_string()))),
    ])]);
    let from_plain = normalize(&plain).expect("object shape must normalize");
    let from_wrapped = normalize(&wrapped).expect("array shape must normalize");
    assert_eq!(from_plain.code, from_wrapped.code);
    assert_eq!(from_plain.message, from_wrapped.message);
    assert!(matches!(from_plain.payload, Json::Str(s) if s == "p"));
    assert!(matches!(from_wrapped.payload, Json::Str(s) if s == "p"));
}
