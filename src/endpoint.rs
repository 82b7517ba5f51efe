//! Addresses of the service's endpoints.
use vstd::prelude::*;
use vstd::string::*;

verus! {

/// `parts` joined with a comma between each two neighbours.
pub open spec fn comma_joined(parts: Seq<Seq<char>>) -> Seq<char>
    decreases parts.len(),
{
    if parts.len() == 0 {
        Seq::empty()
    } else if parts.len() == 1 {
        parts[0]
    } else {
        comma_joined(parts.drop_last()) + seq![','] + parts.last()
    }
}

/// The text of each of `parts`.
pub open spec fn texts(parts: Seq<&str>) -> Seq<Seq<char>> {
    parts.map_values(|p: &str| p@)
}

/// Joins `parts` with commas.
pub fn join_with_commas(parts: &[&str]) -> (r: String)
    ensures
        r@ == comma_joined(texts(parts@)),
{
    let mut r = String::new();
    let mut i: usize = 0;
    while i < parts.len()
        invariant
            i <= parts@.len(),
            r@ == comma_joined(texts(parts@.subrange(0, i as int))),
        decreases parts@.len() - i,
    {
        let ghost before = texts(parts@.subrange(0, i as int));
        if i > 0 {
            r.append(",");
        }
        r.append(parts[i]);
        proof {
            let after = texts(parts@.subrange(0, i + 1));
            assert(after.drop_last() =~= before);
            assert(after.last() == parts@[i as int]@);
            if i == 0 {
                assert(r@ =~= after[0]);
            } else {
                reveal_strlit(",");
                assert(r@ =~= comma_joined(after.drop_last()) + seq![','] + after.last());
            }
        }
        i = i + 1;
    }
    assert(parts@.subrange(0, parts@.len() as int) =~= parts@);
    r
}

/// The address of the compiler listing.
pub fn compilers_url() -> (r: String)
    ensures
        r@ == "https://godbolt.org/api/compilers/"@,
{
    String::from_str("https://godbolt.org/api/compilers/")
}

/// The base fields that a listing with extended fields always asks for,
/// each followed by a comma.
pub open spec fn base_fields_query() -> Seq<char> {
    "https://godbolt.org/api/compilers?fields=compilerType,id,instructionSet,lang,name,semver,"@
}

/// The address of the compiler listing with the base fields and `fields`.
pub fn compilers_with_fields_url(fields: &[&str]) -> (r: String)
    ensures
        r@ == base_fields_query() + comma_joined(texts(fields@)),
{
    let mut r = String::from_str(
        "https://godbolt.org/api/compilers?fields=compilerType,id,instructionSet,lang,name,semver,",
    );
    let extra = join_with_commas(fields);
    r.append(extra.as_str());
    r
}

/// The address of the compiler listing with every field.
pub fn compilers_with_all_fields_url() -> (r: String)
    ensures
        r@ == "https://godbolt.org/api/compilers?fields=all"@,
{
    String::from_str("https://godbolt.org/api/compilers?fields=all")
}

/// The address of the compilers for one language.
pub fn compilers_for_language_url(language: &str) -> (r: String)
    ensures
        r@ == "https://godbolt.org/api/compilers/"@ + language@,
{
    let mut r = String::from_str("https://godbolt.org/api/compilers/");
    r.append(language);
    r
}

/// The address of the language listing.
pub fn languages_url() -> (r: String)
    ensures
        r@ == "https://godbolt.org/api/languages/"@,
{
    String::from_str("https://godbolt.org/api/languages/")
}

/// The address of the libraries for one language.
pub fn libraries_for_language_url(language: &str) -> (r: String)
    ensures
        r@ == "https://godbolt.org/api/libraries/"@ + language@,
{
    let mut r = String::from_str("https://godbolt.org/api/libraries/");
    r.append(language);
    r
}

/// The address of the formatter listing.
pub fn formats_url() -> (r: String)
    ensures
        r@ == "https://godbolt.org/api/formats"@,
{
    String::from_str("https://godbolt.org/api/formats")
}

/// The address to which a compile request for `compiler` is posted.
pub fn compile_url(compiler: &str) -> (r: String)
    ensures
        r@ == "https://godbolt.org/api/compiler/"@ + compiler@ + "/compile"@,
{
    let mut r = String::from_str("https://godbolt.org/api/compiler/");
    r.append(compiler);
    r.append("/compile");
    r
}

} // verus!
