use godbolt::endpoint::{
    compile_url, compilers_for_language_url, compilers_url, compilers_with_all_fields_url,
    compilers_with_fields_url, formats_url, join_with_commas, languages_url,
    libraries_for_language_url,
};

#[test]
fn join_none() {
    assert_eq!(join_with_commas(&[]), "");
}

#[test]
fn join_one() {
    assert_eq!(join_with_commas(&["tools"]), "tools");
}

#[test]
fn join_three() {
    assert_eq!(join_with_commas(&["supportsAsmDocs", "version", "tools"]), "supportsAsmDocs,version,tools");
}

#[test]
fn fields_url_appends_extra_fields() {
    assert_eq!(
        compilers_with_fields_url(&["supportsAsmDocs", "version", "tools"]),
        "https://godbolt.org/api/compilers?fields=compilerType,id,instructionSet,lang,name,semver,supportsAsmDocs,version,tools"
    );
}

#[test]
fn fixed_urls() {
    assert_eq!(compilers_url(), "https://godbolt.org/api/compilers/");
    assert_eq!(compilers_with_all_fields_url(), "https://godbolt.org/api/compilers?fields=all");
    assert_eq!(languages_url(), "https://godbolt.org/api/languages/");
    assert_eq!(formats_url(), "https://godbolt.org/api/formats");
}

#[test]
fn language_urls() {
    assert_eq!(compilers_for_language_url("rust"), "https://godbolt.org/api/compilers/rust");
    assert_eq!(libraries_for_language_url("rust"), "https://godbolt.org/api/libraries/rust");
}

#[test]
fn compile_url_names_compiler() {
    assert_eq!(compile_url("r1600"), "https://godbolt.org/api/compiler/r1600/compile");
}
