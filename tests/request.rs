use godbolt::{default_string, default_vec_string, AdditionalFields, Filters, Options, Source};

#[test]
fn default_filters_profile() {
    let f = Filters::default();
    assert!(!f.binary);
    assert!(f.comment_only);
    assert!(f.demangle);
    assert!(f.directives);
    assert!(!f.execute);
    assert!(f.intel);
    assert!(f.labels);
    assert!(!f.library_code);
    assert!(!f.trim);
}

#[test]
fn default_options_use_dash_o() {
    let o = Options::default();
    assert_eq!(o.user_arguments, "-O");
    assert_eq!(o.filters, Filters::default());
}

#[test]
fn source_with_default_options_keeps_text() {
    let src = "\n    pub fn square(num: i32) -> i32 {\n        num * num\n    }\n";
    let s = Source::with_default_options(src);
    assert_eq!(s.source, src);
    assert_eq!(s.options.user_arguments, "-O");
    assert_eq!(s.options.filters, Filters::default());
}

#[test]
fn source_with_options_is_verbatim() {
    let filters = Filters { execute: true, trim: true, ..Filters::default() };
    let s = Source::with_options("int main() {}", Options::new("-O3 -Wall".to_string(), filters));
    assert_eq!(s.source, "int main() {}");
    assert_eq!(s.options.user_arguments, "-O3 -Wall");
    assert!(s.options.filters.execute);
    assert!(s.options.filters.trim);
    assert!(s.options.filters.intel);
}

#[test]
fn absent_extended_fields_default_to_empty_text() {
    let f = AdditionalFields::default();
    assert_eq!(f.demangler, "");
    assert_eq!(f.exe, "");
    assert_eq!(f.nvdisasm, "");
    assert!(f.tools.is_none());
    assert!(f.supports_binary.is_none());
    assert!(f.alias.is_none());
}

#[test]
fn default_string_is_empty() {
    assert_eq!(default_string(), "");
}

#[test]
fn default_vec_string_holds_one_empty_string() {
    assert_eq!(default_vec_string(), vec![String::new()]);
}
