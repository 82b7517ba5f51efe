use godbolt::decode::{
    coerce_text, decode_additional_fields, decode_additional_fields_list, decode_compilation_response,
    decode_compiler, decode_compilers, decode_formats, decode_languages, decode_libraries, DecodeError,
};
use godbolt::json::Json;
use godbolt::merge::decode_compilers_with_fields;
use serde_json::Value;

fn tree(value: Value) -> Json {
    match value {
        Value::Null => Json::Null,
        Value::Bool(b) => Json::Bool(b),
        Value::Number(n) => {
            if let Some(u) = n.as_u64() {
                Json::PosInt(u)
            } else if let Some(i) = n.as_i64() {
                Json::NegInt(i)
            } else {
                Json::Float(n.as_f64().unwrap().to_string())
            }
        }
        Value::String(s) => Json::Str(s),
        Value::Array(items) => Json::Array(items.into_iter().map(tree).collect()),
        Value::Object(map) => Json::Object(map.into_iter().map(|(k, v)| (k, tree(v))).collect()),
    }
}

fn parse(text: &str) -> Json {
    tree(serde_json::from_str(text).unwrap())
}

const BASE: &str = r#""compilerType":"","id":"r1600","lang":"rust","name":"rustc 1.60.0","semver":"1.60.0""#;

fn compiler_with_instruction_set(set: &str) -> String {
    format!("{{{},\"instructionSet\":{}}}", BASE, set)
}

#[test]
fn instruction_set_string() {
    let c = decode_compiler(&parse(&compiler_with_instruction_set("\"amd64\""))).unwrap();
    assert_eq!(c.instruction_set, "amd64");
    assert_eq!(c.id, "r1600");
    assert_eq!(c.lang, "rust");
    assert!(c.additional_fields.is_none());
}

#[test]
fn instruction_set_number() {
    let c = decode_compiler(&parse(&compiler_with_instruction_set("64"))).unwrap();
    assert_eq!(c.instruction_set, "64");
}

#[test]
fn instruction_set_negative_number() {
    let c = decode_compiler(&parse(&compiler_with_instruction_set("-3"))).unwrap();
    assert_eq!(c.instruction_set, "-3");
}

#[test]
fn instruction_set_bool() {
    let c = decode_compiler(&parse(&compiler_with_instruction_set("true"))).unwrap();
    assert_eq!(c.instruction_set, "true");
}

#[test]
fn instruction_set_null_is_empty() {
    let c = decode_compiler(&parse(&compiler_with_instruction_set("null"))).unwrap();
    assert_eq!(c.instruction_set, "");
}

#[test]
fn instruction_set_array_fails() {
    let r = decode_compiler(&parse(&compiler_with_instruction_set("[1]")));
    assert_eq!(r.unwrap_err(), DecodeError::InvalidField);
}

#[test]
fn compiler_missing_id_fails() {
    let r = decode_compiler(&parse(r#"{"compilerType":"","lang":"c","name":"x","semver":"1","instructionSet":"a"}"#));
    assert_eq!(r.unwrap_err(), DecodeError::InvalidField);
}

#[test]
fn compiler_not_an_object() {
    assert_eq!(decode_compiler(&parse("3")).unwrap_err(), DecodeError::ExpectedObject);
}

#[test]
fn compilers_not_an_array() {
    assert_eq!(decode_compilers(&parse("{}")).unwrap_err(), DecodeError::ExpectedArray);
}

#[test]
fn compilers_keep_order_and_ignore_unknown_fields() {
    let text = format!(
        "[{},{}]",
        compiler_with_instruction_set("\"amd64\"").replace("}", ",\"extra\":1}"),
        compiler_with_instruction_set("\"arm\"").replace("r1600", "r1700")
    );
    let cs = decode_compilers(&parse(&text)).unwrap();
    assert_eq!(cs.len(), 2);
    assert_eq!(cs[0].id, "r1600");
    assert_eq!(cs[1].id, "r1700");
    assert_eq!(cs[1].instruction_set, "arm");
}

#[test]
fn coerce_text_of_scalars() {
    assert_eq!(coerce_text(&Json::PosInt(18446744073709551615)).unwrap(), "18446744073709551615");
    assert_eq!(coerce_text(&Json::NegInt(-9223372036854775808)).unwrap(), "-9223372036854775808");
    assert_eq!(coerce_text(&Json::Bool(false)).unwrap(), "false");
    assert_eq!(coerce_text(&Json::Float("1.5".to_string())).unwrap(), "1.5");
    assert!(coerce_text(&Json::Object(Vec::new())).is_none());
}

#[test]
fn absent_demangler_and_exe_default_to_empty() {
    let f = decode_additional_fields(parse(r#"{"version":"1.60"}"#)).unwrap();
    assert_eq!(f.demangler, "");
    assert_eq!(f.exe, "");
    assert_eq!(f.nvdisasm, "");
    assert_eq!(f.version.as_deref(), Some("1.60"));
    assert!(f.hidden.is_none());
}

#[test]
fn demangler_of_another_type_is_empty() {
    let f = decode_additional_fields(parse(r#"{"demangler":5,"exe":["a"]}"#)).unwrap();
    assert_eq!(f.demangler, "");
    assert_eq!(f.exe, "");
}

#[test]
fn extended_fields_read_their_types() {
    let f = decode_additional_fields(parse(
        r#"{"demangler":"/usr/bin/c++filt","exe":"/opt/rustc","supportsBinary":true,"libpathFlag":"-L","alias":["a","b"],"envVars":[1,null],"license":{"name":"MIT"},"isSemVer":null}"#,
    ))
    .unwrap();
    assert_eq!(f.demangler, "/usr/bin/c++filt");
    assert_eq!(f.exe, "/opt/rustc");
    assert_eq!(f.supports_binary, Some(true));
    assert_eq!(f.lib_path_flag.as_deref(), Some("-L"));
    assert_eq!(f.alias, Some(vec!["a".to_string(), "b".to_string()]));
    assert_eq!(f.env_vars, Some(vec![Json::PosInt(1), Json::Null]));
    assert_eq!(f.license, Some(vec![("name".to_string(), Json::Str("MIT".to_string()))]));
    assert!(f.is_sem_ver.is_none());
}

#[test]
fn extended_field_of_wrong_type_fails() {
    let r = decode_additional_fields(parse(r#"{"hidden":"yes"}"#));
    assert_eq!(r.unwrap_err(), DecodeError::InvalidField);
    let r = decode_additional_fields(parse(r#"{"nvdisasm":null}"#));
    assert_eq!(r.unwrap_err(), DecodeError::InvalidField);
    let r = decode_additional_fields(parse(r#"{"tools":[1]}"#));
    assert_eq!(r.unwrap_err(), DecodeError::InvalidField);
}

#[test]
fn extended_fields_list_in_order() {
    let fs = decode_additional_fields_list(parse(r#"[{"version":"1"},{"version":"2"},{"version":"3"}]"#)).unwrap();
    let versions: Vec<&str> = fs.iter().map(|f| f.version.as_deref().unwrap()).collect();
    assert_eq!(versions, vec!["1", "2", "3"]);
    assert_eq!(decode_additional_fields_list(parse("null")).unwrap_err(), DecodeError::ExpectedArray);
    assert_eq!(decode_additional_fields_list(parse("[{},2]")).unwrap_err(), DecodeError::ExpectedObject);
}

#[test]
fn listing_with_tools_field() {
    let text = format!(
        "[{{{},\"instructionSet\":\"amd64\",\"tools\":{{\"foo\":\"bar\"}}}}]",
        BASE
    );
    let cs = decode_compilers_with_fields(parse(&text)).unwrap();
    assert_eq!(cs.len(), 1);
    assert_eq!(cs[0].id, "r1600");
    let tools = cs[0].additional_fields.as_ref().unwrap().tools.as_ref().unwrap();
    assert_eq!(tools, &vec![("foo".to_string(), Json::Str("bar".to_string()))]);
}

#[test]
fn listing_with_fields_fails_as_a_whole() {
    let text = format!("[{{{},\"instructionSet\":\"amd64\",\"hidden\":3}}]", BASE);
    assert_eq!(decode_compilers_with_fields(parse(&text)).unwrap_err(), DecodeError::InvalidField);
    assert_eq!(decode_compilers_with_fields(parse("{}")).unwrap_err(), DecodeError::ExpectedArray);
}

const RESPONSE: &str = r#"{
    "inputFilename": "/tmp/example.rs",
    "code": 0,
    "okToCache": true,
    "timedOut": false,
    "stdout": [null, {"text": "hello"}, null],
    "stderr": [{"text": "warning"}, null],
    "execTime": "12",
    "compilationOptions": ["-O"],
    "downloads": [],
    "tools": [null],
    "asmSize": 128,
    "asm": [{"text": "square:"}],
    "labelDefinitions": {"square": 1},
    "parsingTime": "1",
    "filteredCount": 3,
    "popularArguments": {"-O3": {"timesused": 2}}
}"#;

#[test]
fn response_with_mixed_null_items() {
    let r = decode_compilation_response(parse(RESPONSE)).unwrap();
    assert_eq!(r.code, 0);
    assert_eq!(r.input_filename, "/tmp/example.rs");
    assert!(r.ok_to_cache);
    assert_eq!(r.stdout.len(), 3);
    assert!(r.stdout[0].is_none());
    assert!(r.stdout[1].is_some());
    assert!(r.stdout[2].is_none());
    assert!(r.stderr[0].is_some());
    assert!(r.stderr[1].is_none());
    assert_eq!(r.tools, vec![None]);
    assert_eq!(r.asm_size, 128);
    assert_eq!(r.assembly.len(), 1);
    assert_eq!(r.filtered_count, 3);
    assert_eq!(r.compilation_options, vec!["-O".to_string()]);
    assert_eq!(r.popular_arguments.len(), 1);
}

#[test]
fn response_without_code_fails() {
    let text = RESPONSE.replace("\"code\": 0,", "");
    assert_eq!(decode_compilation_response(parse(&text)).unwrap_err(), DecodeError::InvalidField);
}

#[test]
fn response_with_negative_code() {
    let text = RESPONSE.replace("\"code\": 0,", "\"code\": -1,");
    assert_eq!(decode_compilation_response(parse(&text)).unwrap().code, -1);
}

#[test]
fn response_with_code_too_large_fails() {
    let text = RESPONSE.replace("\"code\": 0,", "\"code\": 9223372036854775808,");
    assert!(decode_compilation_response(parse(&text)).is_err());
}

#[test]
fn languages_decode() {
    let ls = decode_languages(&parse(r#"[{"id":"rust","name":"Rust","extensions":[".rs"],"monaco":"rust"}]"#)).unwrap();
    assert_eq!(ls[0].id, "rust");
    assert_eq!(ls[0].extensions, vec![".rs".to_string()]);
    assert!(decode_languages(&parse(r#"[{"id":"rust","name":"Rust","extensions":[1],"monaco":"rust"}]"#)).is_err());
}

#[test]
fn formats_decode() {
    let fs = decode_formats(&parse(r#"[{"exe":"/opt/rustfmt","name":"rustfmt","styles":[],"type":"rustfmt","version":"1.4"}]"#)).unwrap();
    assert_eq!(fs[0].format_type, "rustfmt");
    assert!(fs[0].styles.is_empty());
}

#[test]
fn libraries_decode() {
    let ls = decode_libraries(parse(r#"[{"id":"itoa","name":"itoa","url":"https://example.org","versions":[{"version":"1.0"},{"version":"0.4"}]}]"#)).unwrap();
    assert_eq!(ls[0].versions.len(), 2);
    assert_eq!(ls[0].versions[1], vec![("version".to_string(), Json::Str("0.4".to_string()))]);
    assert!(decode_libraries(parse(r#"[{"id":"itoa","name":"itoa","url":"u","versions":[1]}]"#)).is_err());
}
