use godbolt::body::{decode_filters, decode_options, encode_filters, encode_options, encode_source};
use godbolt::decode::DecodeError;
use godbolt::json::Json;
use godbolt::{Filters, Options, Source};
use serde_json::Value;

fn value(json: Json) -> Value {
    match json {
        Json::Null => Value::Null,
        Json::Bool(b) => Value::Bool(b),
        Json::PosInt(u) => Value::from(u),
        Json::NegInt(i) => Value::from(i),
        Json::Float(t) => Value::from(t.parse::<f64>().unwrap()),
        Json::Str(s) => Value::String(s),
        Json::Array(items) => Value::Array(items.into_iter().map(value).collect()),
        Json::Object(entries) => Value::Object(entries.into_iter().map(|(k, v)| (k, value(v))).collect()),
    }
}

fn tree(v: Value) -> Json {
    match v {
        Value::Null => Json::Null,
        Value::Bool(b) => Json::Bool(b),
        Value::Number(n) => match (n.as_u64(), n.as_i64()) {
            (Some(u), _) => Json::PosInt(u),
            (None, Some(i)) => Json::NegInt(i),
            _ => Json::Float(n.as_f64().unwrap().to_string()),
        },
        Value::String(s) => Json::Str(s),
        Value::Array(items) => Json::Array(items.into_iter().map(tree).collect()),
        Value::Object(map) => Json::Object(map.into_iter().map(|(k, v)| (k, tree(v))).collect()),
    }
}

#[test]
fn default_options_round_trip_through_text() {
    let text = value(encode_options(&Options::default())).to_string();
    let read = decode_options(&tree(serde_json::from_str(&text).unwrap())).unwrap();
    assert_eq!(read.filters, Filters::default());
    assert_eq!(read.user_arguments, "-O");
}

#[test]
fn filters_are_sent_in_camel_case() {
    let v = value(encode_filters(&Filters::default()));
    assert_eq!(v["commentOnly"], Value::Bool(true));
    assert_eq!(v["libraryCode"], Value::Bool(false));
    assert_eq!(v["binary"], Value::Bool(false));
    assert_eq!(v["intel"], Value::Bool(true));
    assert_eq!(v.as_object().unwrap().len(), 9);
}

#[test]
fn source_body_holds_text_and_options() {
    let src = "int main() { return 0; }";
    let v = value(encode_source(&Source::with_default_options(src)));
    assert_eq!(v["source"], Value::String(src.to_string()));
    assert_eq!(v["options"]["userArguments"], Value::String("-O".to_string()));
    assert_eq!(v["options"]["filters"]["demangle"], Value::Bool(true));
    assert_eq!(v["options"]["filters"]["execute"], Value::Bool(false));
}

#[test]
fn custom_options_round_trip() {
    let sent = Options::new("-C opt-level=3".to_string(), Filters { execute: true, intel: false, ..Filters::default() });
    let read = decode_options(&encode_options(&sent)).unwrap();
    assert_eq!(read.user_arguments, "-C opt-level=3");
    assert!(read.filters.execute);
    assert!(!read.filters.intel);
}

#[test]
fn filters_missing_a_toggle_fail() {
    let v = tree(serde_json::from_str(r#"{"binary":false}"#).unwrap());
    assert_eq!(decode_filters(&v).unwrap_err(), DecodeError::InvalidField);
    assert_eq!(decode_filters(&Json::Null).unwrap_err(), DecodeError::ExpectedObject);
    assert_eq!(decode_options(&Json::Bool(true)).unwrap_err(), DecodeError::ExpectedObject);
}
