use godbolt::merge::{merge_additional_fields, merge_decoded};
use godbolt::json::Json;
use godbolt::{AdditionalFields, Compiler};

fn compiler(id: &str) -> Compiler {
    Compiler {
        compiler_type: "rustc".to_string(),
        id: id.to_string(),
        instruction_set: "amd64".to_string(),
        lang: "rust".to_string(),
        name: format!("rustc {}", id),
        semver: "1.60.0".to_string(),
        additional_fields: None,
    }
}

fn fields(version: &str) -> AdditionalFields {
    AdditionalFields { version: Some(version.to_string()), ..AdditionalFields::default() }
}

#[test]
fn merge_same_length_attaches_by_position() {
    let cs = vec![compiler("a"), compiler("b"), compiler("c")];
    let fs = vec![fields("1"), fields("2"), fields("3")];
    let merged = merge_additional_fields(cs, fs);
    assert_eq!(merged.len(), 3);
    let ids: Vec<&str> = merged.iter().map(|c| c.id.as_str()).collect();
    assert_eq!(ids, vec!["a", "b", "c"]);
    for (c, v) in merged.iter().zip(["1", "2", "3"]) {
        let f = c.additional_fields.as_ref().expect("fields attached");
        assert_eq!(f.version.as_deref(), Some(v));
        assert_eq!(c.lang, "rust");
    }
}

#[test]
fn merge_fewer_compilers_truncates() {
    let cs = vec![compiler("a"), compiler("b")];
    let fs = vec![fields("1"), fields("2"), fields("3"), fields("4")];
    let merged = merge_additional_fields(cs, fs);
    assert_eq!(merged.len(), 2);
    assert_eq!(merged[1].id, "b");
    assert_eq!(merged[1].additional_fields.as_ref().unwrap().version.as_deref(), Some("2"));
}

#[test]
fn merge_fewer_fields_truncates() {
    let cs = vec![compiler("a"), compiler("b"), compiler("c")];
    let fs = vec![fields("1")];
    let merged = merge_additional_fields(cs, fs);
    assert_eq!(merged.len(), 1);
    assert_eq!(merged[0].id, "a");
    assert_eq!(merged[0].additional_fields.as_ref().unwrap().version.as_deref(), Some("1"));
}

#[test]
fn merge_empty_listing() {
    let merged = merge_additional_fields(Vec::new(), vec![fields("1")]);
    assert!(merged.is_empty());
}

#[test]
fn merge_keeps_non_empty_ids() {
    let merged = merge_additional_fields(vec![compiler("x"), compiler("y")], vec![fields("1"), fields("2")]);
    assert!(merged.iter().all(|c| !c.id.is_empty()));
}

#[test]
fn merge_decoded_both_ok() {
    let r: Result<Vec<Compiler>, String> =
        merge_decoded(Ok(vec![compiler("a")]), Ok(vec![fields("9"), fields("8")]));
    let merged = r.unwrap();
    assert_eq!(merged.len(), 1);
    assert_eq!(merged[0].additional_fields.as_ref().unwrap().version.as_deref(), Some("9"));
}

#[test]
fn merge_decoded_base_failure_wins() {
    let r: Result<Vec<Compiler>, String> = merge_decoded(Err("base".to_string()), Err("extended".to_string()));
    assert_eq!(r.unwrap_err(), "base");
}

#[test]
fn merge_decoded_extended_failure() {
    let r: Result<Vec<Compiler>, String> = merge_decoded(Ok(vec![compiler("a")]), Err("extended".to_string()));
    assert_eq!(r.unwrap_err(), "extended");
}

#[test]
fn tools_field_reaches_the_merged_compiler() {
    let tools = || vec![("foo".to_string(), Json::Str("bar".to_string()))];
    let extended = AdditionalFields { tools: Some(tools()), ..AdditionalFields::default() };
    let merged = merge_additional_fields(vec![compiler("r1600")], vec![extended]);
    assert_eq!(merged.len(), 1);
    assert_eq!(merged[0].id, "r1600");
    assert_eq!(merged[0].additional_fields.as_ref().unwrap().tools, Some(tools()));
}

#[test]
fn with_additional_fields_keeps_base_fields() {
    let c = compiler("g95").with_additional_fields(fields("7"));
    assert_eq!(c.id, "g95");
    assert_eq!(c.instruction_set, "amd64");
    assert_eq!(c.additional_fields.unwrap().version.as_deref(), Some("7"));
}
