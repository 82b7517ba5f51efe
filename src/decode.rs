//! Decoding of the service's records from a parsed JSON document.
use vstd::prelude::*;
use vstd::string::*;
use crate::json::{take_member, Json};
use crate::model::{AdditionalFields, CompilationResponse, Compiler, Format, Language, Library};

verus! {

/// Why a document did not decode.
#[derive(Debug, Clone, Copy, PartialEq, Eq, Structural)]
pub enum DecodeError {
    /// A list was expected and something else was found.
    ExpectedArray,
    /// A record was expected and something else was found.
    ExpectedObject,
    /// A record lacks a required field, or holds it with the wrong type.
    InvalidField,
}

/// The error of a value that does not decode as a record.
pub open spec fn record_error(v: Json) -> DecodeError {
    if v is Object {
        DecodeError::InvalidField
    } else {
        DecodeError::ExpectedObject
    }
}

/// The decimal digits of `n`.
pub open spec fn decimal(n: nat) -> Seq<char>
    decreases n,
{
    if n < 10 {
        seq![seq!['0', '1', '2', '3', '4', '5', '6', '7', '8', '9'][n as int]]
    } else {
        decimal(n / 10) + seq![seq!['0', '1', '2', '3', '4', '5', '6', '7', '8', '9'][(n % 10) as int]]
    }
}

/// The decimal text of `n`, with a leading minus sign where it is negative.
pub open spec fn signed_decimal(n: int) -> Seq<char> {
    if n < 0 {
        seq!['-'] + decimal((-n) as nat)
    } else {
        decimal(n as nat)
    }
}

/// Relies on `u64`'s `Display` (through `to_string`): its decimal digits.
#[verifier::external_body]
fn u64_text(n: u64) -> (r: String)
    ensures
        r@ == decimal(n as nat),
{
    n.to_string()
}

/// Relies on `i64`'s `Display` (through `to_string`): a minus sign where the
/// value is negative, then the decimal digits of its magnitude.
#[verifier::external_body]
fn i64_text(n: i64) -> (r: String)
    ensures
        r@ == signed_decimal(n as int),
{
    n.to_string()
}

/// The text that a scalar stands for: a string itself, `true` or `false`,
/// the decimal text of a number, and the empty text for `null`. Arrays and
/// objects have none.
pub open spec fn scalar_text(v: Json) -> Option<Seq<char>> {
    match v {
        Json::Null => Some(Seq::empty()),
        Json::Bool(b) => Some(
            if b {
                "true"@
            } else {
                "false"@
            },
        ),
        Json::PosInt(n) => Some(decimal(n as nat)),
        Json::NegInt(n) => Some(signed_decimal(n as int)),
        Json::Float(t) => Some(t@),
        Json::Str(s) => Some(s@),
        _ => None,
    }
}

/// Turns a scalar into text; `None` for an array or an object.
pub fn coerce_text(v: &Json) -> (r: Option<String>)
    ensures
        view_text(r) == scalar_text(*v),
{
    match v {
        Json::Null => Some(String::new()),
        Json::Bool(b) => {
            if *b {
                Some(String::from_str("true"))
            } else {
                Some(String::from_str("false"))
            }
        },
        Json::PosInt(n) => Some(u64_text(*n)),
        Json::NegInt(n) => Some(i64_text(*n)),
        Json::Float(t) => Some(t.clone()),
        Json::Str(s) => Some(s.clone()),
        _ => None,
    }
}

/// The text of an optional string.
pub open spec fn view_text(o: Option<String>) -> Option<Seq<char>> {
    match o {
        Some(s) => Some(s@),
        None => None,
    }
}

/// The texts of a list of strings.
pub open spec fn view_texts(v: Seq<String>) -> Seq<Seq<char>> {
    Seq::new(v.len(), |i: int| v[i]@)
}

/// The string held under `key`, if `v` holds one there.
pub open spec fn text_member(v: Json, key: Seq<char>) -> Option<Seq<char>> {
    match v.member(key) {
        Some(Json::Str(s)) => Some(s@),
        _ => None,
    }
}

/// Whether every item is a string.
pub open spec fn all_strings(items: Seq<Json>) -> bool {
    forall|i: int| 0 <= i < items.len() ==> (#[trigger] items[i]) is Str
}

/// The list of strings held under `key`, if `v` holds one there.
pub open spec fn texts_member(v: Json, key: Seq<char>) -> Option<Seq<Seq<char>>> {
    match v.member(key) {
        Some(Json::Array(items)) => if all_strings(items@) {
            Some(Seq::new(items@.len(), |i: int| items@[i]->Str_0@))
        } else {
            None
        },
        _ => None,
    }
}

impl Json {
    pub fn is_object(&self) -> (r: bool)
        ensures
            r == (*self is Object),
    {
        match self {
            Json::Object(_) => true,
            _ => false,
        }
    }
}

/// The string under `key`.
pub(crate) fn text_of(v: &Json, key: &str) -> (r: Option<String>)
    ensures
        view_text(r) == text_member(*v, key@),
{
    match v.get(key) {
        Some(Json::Str(s)) => Some(s.clone()),
        _ => None,
    }
}

/// The list of strings under `key`.
fn texts_of(v: &Json, key: &str) -> (r: Option<Vec<String>>)
    ensures
        r is Some <==> texts_member(*v, key@) is Some,
        r is Some ==> view_texts(r->0@) == texts_member(*v, key@)->0,
{
    match v.get(key) {
        Some(Json::Array(items)) => {
            let mut out: Vec<String> = Vec::new();
            let mut i: usize = 0;
            while i < items.len()
                invariant
                    i <= items@.len(),
                    out@.len() == i,
                    v.member(key@) == Some(Json::Array(*items)),
                    forall|j: int| 0 <= j < i ==> (#[trigger] items@[j]) is Str,
                    forall|j: int| 0 <= j < i ==> (#[trigger] out@[j])@ == items@[j]->Str_0@,
                decreases items@.len() - i,
            {
                match &items[i] {
                    Json::Str(s) => out.push(s.clone()),
                    _ => {
                        return None;
                    },
                }
                i = i + 1;
            }
            assert(view_texts(out@) =~= Seq::new(items@.len(), |i: int| items@[i]->Str_0@));
            Some(out)
        },
        _ => None,
    }
}

/// Whether `v` is an object that holds every field of a compiler record.
pub open spec fn compiler_valid(v: Json) -> bool {
    &&& v is Object
    &&& text_member(v, "compilerType"@) is Some
    &&& text_member(v, "id"@) is Some
    &&& v.member("instructionSet"@) is Some
    &&& scalar_text(v.member("instructionSet"@)->0) is Some
    &&& text_member(v, "lang"@) is Some
    &&& text_member(v, "name"@) is Some
    &&& text_member(v, "semver"@) is Some
}

/// `c` holds the fields of a compiler record as `v` gives them.
pub open spec fn decodes_to_compiler(v: Json, c: Compiler) -> bool {
    &&& c.compiler_type@ == text_member(v, "compilerType"@)->0
    &&& c.id@ == text_member(v, "id"@)->0
    &&& c.instruction_set@ == scalar_text(v.member("instructionSet"@)->0)->0
    &&& c.lang@ == text_member(v, "lang"@)->0
    &&& c.name@ == text_member(v, "name"@)->0
    &&& c.semver@ == text_member(v, "semver"@)->0
    &&& c.additional_fields is None
}

/// Decodes a compiler record; fields that the record does not name are ignored.
pub fn decode_compiler(v: &Json) -> (r: Result<Compiler, DecodeError>)
    ensures
        r is Ok <==> compiler_valid(*v),
        r is Ok ==> decodes_to_compiler(*v, r->Ok_0),
        r is Err ==> r->Err_0 == record_error(*v),
{
    if !v.is_object() {
        return Err(DecodeError::ExpectedObject);
    }
        let compiler_type = match text_of(v, "compilerType") {
            Some(s) => s,
            None => {
                return Err(DecodeError::InvalidField);
            },
        };
        let id = match text_of(v, "id") {
            Some(s) => s,
            None => {
                return Err(DecodeError::InvalidField);
            },
        };
        let instruction_set = match v.get("instructionSet") {
            Some(x) => match coerce_text(x) {
                Some(s) => s,
                None => {
                    return Err(DecodeError::InvalidField);
                },
            },
            None => {
                return Err(DecodeError::InvalidField);
            },
        };
        let lang = match text_of(v, "lang") {
            Some(s) => s,
            None => {
                return Err(DecodeError::InvalidField);
            },
        };
        let name = match text_of(v, "name") {
            Some(s) => s,
            None => {
                return Err(DecodeError::InvalidField);
            },
        };
        let semver = match text_of(v, "semver") {
            Some(s) => s,
            None => {
                return Err(DecodeError::InvalidField);
            },
        };
    Ok(Compiler {
            compiler_type,
            id,
            instruction_set,
            lang,
            name,
            semver,
            additional_fields: None,
    })
}

/// Decodes an array of a compiler records, failing on the first element that does not
/// decode.
pub fn decode_compilers(v: &Json) -> (r: Result<Vec<Compiler>, DecodeError>)
    ensures
        !(v is Array) ==> r == Err::<Vec<Compiler>, DecodeError>(DecodeError::ExpectedArray),
        v is Array ==> (r is Ok <==> forall|i: int|
            0 <= i < v->Array_0@.len() ==> compiler_valid(#[trigger] v->Array_0@[i])),
        r is Ok ==> r->Ok_0@.len() == v->Array_0@.len(),
        r is Ok ==> forall|i: int|
            0 <= i < r->Ok_0@.len() ==> decodes_to_compiler(v->Array_0@[i], #[trigger] r->Ok_0@[i]),
        v is Array && r is Err ==> exists|j: int|
            0 <= j < v->Array_0@.len() && !compiler_valid(#[trigger] v->Array_0@[j]) && (forall|i: int|
                0 <= i < j ==> compiler_valid(#[trigger] v->Array_0@[i])) && r->Err_0 == record_error(
                v->Array_0@[j],
            ),
{
    match v {
        Json::Array(items) => {
            let mut out: Vec<Compiler> = Vec::new();
            let mut i: usize = 0;
            while i < items.len()
                invariant
                    i <= items@.len(),
                    out@.len() == i,
                    v is Array,
                    v->Array_0@ == items@,
                    forall|j: int| 0 <= j < i ==> compiler_valid(#[trigger] items@[j]),
                    forall|j: int| 0 <= j < i ==> decodes_to_compiler(items@[j], #[trigger] out@[j]),
                decreases items@.len() - i,
            {
                match decode_compiler(&items[i]) {
                    Ok(c) => out.push(c),
                    Err(e) => {
                        return Err(e);
                    },
                }
                i = i + 1;
            }
            Ok(out)
        },
        _ => Err(DecodeError::ExpectedArray),
    }
}

/// Whether `v` is an object that holds every field of a language record.
pub open spec fn language_valid(v: Json) -> bool {
    &&& v is Object
    &&& text_member(v, "id"@) is Some
    &&& text_member(v, "name"@) is Some
    &&& texts_member(v, "extensions"@) is Some
    &&& text_member(v, "monaco"@) is Some
}

/// `c` holds the fields of a language record as `v` gives them.
pub open spec fn decodes_to_language(v: Json, c: Language) -> bool {
    &&& c.id@ == text_member(v, "id"@)->0
    &&& c.name@ == text_member(v, "name"@)->0
    &&& view_texts(c.extensions@) == texts_member(v, "extensions"@)->0
    &&& c.monaco@ == text_member(v, "monaco"@)->0
}

/// Decodes a language record; fields that the record does not name are ignored.
pub fn decode_language(v: &Json) -> (r: Result<Language, DecodeError>)
    ensures
        r is Ok <==> language_valid(*v),
        r is Ok ==> decodes_to_language(*v, r->Ok_0),
        r is Err ==> r->Err_0 == record_error(*v),
{
    if !v.is_object() {
        return Err(DecodeError::ExpectedObject);
    }
        let id = match text_of(v, "id") {
            Some(s) => s,
            None => {
                return Err(DecodeError::InvalidField);
            },
        };
        let name = match text_of(v, "name") {
            Some(s) => s,
            None => {
                return Err(DecodeError::InvalidField);
            },
        };
        let extensions = match texts_of(v, "extensions") {
            Some(s) => s,
            None => {
                return Err(DecodeError::InvalidField);
            },
        };
        let monaco = match text_of(v, "monaco") {
            Some(s) => s,
            None => {
                return Err(DecodeError::InvalidField);
            },
        };
    Ok(Language {
            id,
            name,
            extensions,
            monaco,
    })
}

/// Decodes an array of a language records, failing on the first element that does not
/// decode.
pub fn decode_languages(v: &Json) -> (r: Result<Vec<Language>, DecodeError>)
    ensures
        !(v is Array) ==> r == Err::<Vec<Language>, DecodeError>(DecodeError::ExpectedArray),
        v is Array ==> (r is Ok <==> forall|i: int|
            0 <= i < v->Array_0@.len() ==> language_valid(#[trigger] v->Array_0@[i])),
        r is Ok ==> r->Ok_0@.len() == v->Array_0@.len(),
        r is Ok ==> forall|i: int|
            0 <= i < r->Ok_0@.len() ==> decodes_to_language(v->Array_0@[i], #[trigger] r->Ok_0@[i]),
        v is Array && r is Err ==> exists|j: int|
            0 <= j < v->Array_0@.len() && !language_valid(#[trigger] v->Array_0@[j]) && (forall|i: int|
                0 <= i < j ==> language_valid(#[trigger] v->Array_0@[i])) && r->Err_0 == record_error(
                v->Array_0@[j],
            ),
{
    match v {
        Json::Array(items) => {
            let mut out: Vec<Language> = Vec::new();
            let mut i: usize = 0;
            while i < items.len()
                invariant
                    i <= items@.len(),
                    out@.len() == i,
                    v is Array,
                    v->Array_0@ == items@,
                    forall|j: int| 0 <= j < i ==> language_valid(#[trigger] items@[j]),
                    forall|j: int| 0 <= j < i ==> decodes_to_language(items@[j], #[trigger] out@[j]),
                decreases items@.len() - i,
            {
                match decode_language(&items[i]) {
                    Ok(c) => out.push(c),
                    Err(e) => {
                        return Err(e);
                    },
                }
                i = i + 1;
            }
            Ok(out)
        },
        _ => Err(DecodeError::ExpectedArray),
    }
}

/// Whether `v` is an object that holds every field of a formatter record.
pub open spec fn format_valid(v: Json) -> bool {
    &&& v is Object
    &&& text_member(v, "exe"@) is Some
    &&& text_member(v, "name"@) is Some
    &&& texts_member(v, "styles"@) is Some
    &&& text_member(v, "type"@) is Some
    &&& text_member(v, "version"@) is Some
}

/// `c` holds the fields of a formatter record as `v` gives them.
pub open spec fn decodes_to_format(v: Json, c: Format) -> bool {
    &&& c.exe@ == text_member(v, "exe"@)->0
    &&& c.name@ == text_member(v, "name"@)->0
    &&& view_texts(c.styles@) == texts_member(v, "styles"@)->0
    &&& c.format_type@ == text_member(v, "type"@)->0
    &&& c.version@ == text_member(v, "version"@)->0
}

/// Decodes a formatter record; fields that the record does not name are ignored.
pub fn decode_format(v: &Json) -> (r: Result<Format, DecodeError>)
    ensures
        r is Ok <==> format_valid(*v),
        r is Ok ==> decodes_to_format(*v, r->Ok_0),
        r is Err ==> r->Err_0 == record_error(*v),
{
    if !v.is_object() {
        return Err(DecodeError::ExpectedObject);
    }
        let exe = match text_of(v, "exe") {
            Some(s) => s,
            None => {
                return Err(DecodeError::InvalidField);
            },
        };
        let name = match text_of(v, "name") {
            Some(s) => s,
            None => {
                return Err(DecodeError::InvalidField);
            },
        };
        let styles = match texts_of(v, "styles") {
            Some(s) => s,
            None => {
                return Err(DecodeError::InvalidField);
            },
        };
        let format_type = match text_of(v, "type") {
            Some(s) => s,
            None => {
                return Err(DecodeError::InvalidField);
            },
        };
        let version = match text_of(v, "version") {
            Some(s) => s,
            None => {
                return Err(DecodeError::InvalidField);
            },
        };
    Ok(Format {
            exe,
            name,
            styles,
            format_type,
            version,
    })
}

/// Decodes an array of a formatter records, failing on the first element that does not
/// decode.
pub fn decode_formats(v: &Json) -> (r: Result<Vec<Format>, DecodeError>)
    ensures
        !(v is Array) ==> r == Err::<Vec<Format>, DecodeError>(DecodeError::ExpectedArray),
        v is Array ==> (r is Ok <==> forall|i: int|
            0 <= i < v->Array_0@.len() ==> format_valid(#[trigger] v->Array_0@[i])),
        r is Ok ==> r->Ok_0@.len() == v->Array_0@.len(),
        r is Ok ==> forall|i: int|
            0 <= i < r->Ok_0@.len() ==> decodes_to_format(v->Array_0@[i], #[trigger] r->Ok_0@[i]),
        v is Array && r is Err ==> exists|j: int|
            0 <= j < v->Array_0@.len() && !format_valid(#[trigger] v->Array_0@[j]) && (forall|i: int|
                0 <= i < j ==> format_valid(#[trigger] v->Array_0@[i])) && r->Err_0 == record_error(
                v->Array_0@[j],
            ),
{
    match v {
        Json::Array(items) => {
            let mut out: Vec<Format> = Vec::new();
            let mut i: usize = 0;
            while i < items.len()
                invariant
                    i <= items@.len(),
                    out@.len() == i,
                    v is Array,
                    v->Array_0@ == items@,
                    forall|j: int| 0 <= j < i ==> format_valid(#[trigger] items@[j]),
                    forall|j: int| 0 <= j < i ==> decodes_to_format(items@[j], #[trigger] out@[j]),
                decreases items@.len() - i,
            {
                match decode_format(&items[i]) {
                    Ok(c) => out.push(c),
                    Err(e) => {
                        return Err(e);
                    },
                }
                i = i + 1;
            }
            Ok(out)
        },
        _ => Err(DecodeError::ExpectedArray),
    }
}

/// Whether an optional member is absent, `null` or a string.
pub open spec fn opt_text_ok(m: Option<Json>) -> bool {
    m is None || m->0 is Null || m->0 is Str
}

/// The string of an optional member; `None` where it is absent or `null`.
pub open spec fn opt_text_of(m: Option<Json>) -> Option<Seq<char>> {
    match m {
        Some(Json::Str(s)) => Some(s@),
        _ => None,
    }
}

fn opt_text(v: &Json, key: &str) -> (r: Result<Option<String>, DecodeError>)
    ensures
        r is Ok <==> opt_text_ok(v.member(key@)),
        r is Ok ==> view_text(r->Ok_0) == opt_text_of(v.member(key@)),
        r is Err ==> r->Err_0 == DecodeError::InvalidField,
{
    match v.get(key) {
        None => Ok(None),
        Some(Json::Null) => Ok(None),
        Some(Json::Str(s)) => Ok(Some(s.clone())),
        _ => Err(DecodeError::InvalidField),
    }
}

/// Whether an optional member is absent, `null` or a boolean.
pub open spec fn opt_bool_ok(m: Option<Json>) -> bool {
    m is None || m->0 is Null || m->0 is Bool
}

/// The boolean of an optional member.
pub open spec fn opt_bool_of(m: Option<Json>) -> Option<bool> {
    match m {
        Some(Json::Bool(b)) => Some(b),
        _ => None,
    }
}

fn opt_bool(v: &Json, key: &str) -> (r: Result<Option<bool>, DecodeError>)
    ensures
        r is Ok <==> opt_bool_ok(v.member(key@)),
        r is Ok ==> r->Ok_0 == opt_bool_of(v.member(key@)),
        r is Err ==> r->Err_0 == DecodeError::InvalidField,
{
    match v.get(key) {
        None => Ok(None),
        Some(Json::Null) => Ok(None),
        Some(Json::Bool(b)) => Ok(Some(*b)),
        _ => Err(DecodeError::InvalidField),
    }
}

/// Whether an optional member is absent, `null` or a list of strings.
pub open spec fn opt_texts_ok(m: Option<Json>) -> bool {
    match m {
        None => true,
        Some(Json::Null) => true,
        Some(Json::Array(items)) => all_strings(items@),
        _ => false,
    }
}

/// The strings of an optional list member.
pub open spec fn opt_texts_of(m: Option<Json>) -> Option<Seq<Seq<char>>> {
    match m {
        Some(Json::Array(items)) => Some(Seq::new(items@.len(), |i: int| items@[i]->Str_0@)),
        _ => None,
    }
}

/// The texts of an optional list of strings.
pub open spec fn view_opt_texts(o: Option<Vec<String>>) -> Option<Seq<Seq<char>>> {
    match o {
        Some(v) => Some(view_texts(v@)),
        None => None,
    }
}

fn opt_texts(v: &Json, key: &str) -> (r: Result<Option<Vec<String>>, DecodeError>)
    ensures
        r is Ok <==> opt_texts_ok(v.member(key@)),
        r is Ok ==> view_opt_texts(r->Ok_0) == opt_texts_of(v.member(key@)),
        r is Err ==> r->Err_0 == DecodeError::InvalidField,
{
    match v.get(key) {
        None => Ok(None),
        Some(Json::Null) => Ok(None),
        Some(Json::Array(_)) => match texts_of(v, key) {
            Some(t) => Ok(Some(t)),
            None => Err(DecodeError::InvalidField),
        },
        _ => Err(DecodeError::InvalidField),
    }
}

/// The string of a member, or the empty text where it is absent or holds
/// anything but a string.
pub open spec fn text_or_empty_of(m: Option<Json>) -> Seq<char> {
    match m {
        Some(Json::Str(s)) => s@,
        _ => Seq::empty(),
    }
}

fn text_or_empty(v: &Json, key: &str) -> (r: String)
    ensures
        r@ == text_or_empty_of(v.member(key@)),
{
    match v.get(key) {
        Some(Json::Str(s)) => s.clone(),
        _ => String::new(),
    }
}

/// Whether a member is absent or a string.
pub open spec fn text_default_ok(m: Option<Json>) -> bool {
    m is None || m->0 is Str
}

/// The string of a member, or the empty text where it is absent.
pub open spec fn text_default_of(m: Option<Json>) -> Seq<char> {
    match m {
        Some(Json::Str(s)) => s@,
        _ => Seq::empty(),
    }
}

fn text_or_default(v: &Json, key: &str) -> (r: Result<String, DecodeError>)
    ensures
        r is Ok <==> text_default_ok(v.member(key@)),
        r is Ok ==> r->Ok_0@ == text_default_of(v.member(key@)),
        r is Err ==> r->Err_0 == DecodeError::InvalidField,
{
    match v.get(key) {
        None => Ok(String::new()),
        Some(Json::Str(s)) => Ok(s.clone()),
        _ => Err(DecodeError::InvalidField),
    }
}

/// Whether an optional member is absent, `null` or an array.
pub open spec fn opt_array_ok(m: Option<Json>) -> bool {
    m is None || m->0 is Null || m->0 is Array
}

/// The items of an optional array member.
pub open spec fn opt_array_of(m: Option<Json>) -> Option<Vec<Json>> {
    match m {
        Some(Json::Array(items)) => Some(items),
        _ => None,
    }
}

fn opt_array(m: Option<Json>) -> (r: Result<Option<Vec<Json>>, DecodeError>)
    ensures
        r is Ok <==> opt_array_ok(m),
        r is Ok ==> r->Ok_0 == opt_array_of(m),
        r is Err ==> r->Err_0 == DecodeError::InvalidField,
{
    match m {
        None => Ok(None),
        Some(Json::Null) => Ok(None),
        Some(Json::Array(items)) => Ok(Some(items)),
        _ => Err(DecodeError::InvalidField),
    }
}

/// Whether an optional member is absent, `null` or an object.
pub open spec fn opt_object_ok(m: Option<Json>) -> bool {
    m is None || m->0 is Null || m->0 is Object
}

/// The entries of an optional object member.
pub open spec fn opt_object_of(m: Option<Json>) -> Option<Vec<(String, Json)>> {
    match m {
        Some(Json::Object(entries)) => Some(entries),
        _ => None,
    }
}

fn opt_object(m: Option<Json>) -> (r: Result<Option<Vec<(String, Json)>>, DecodeError>)
    ensures
        r is Ok <==> opt_object_ok(m),
        r is Ok ==> r->Ok_0 == opt_object_of(m),
        r is Err ==> r->Err_0 == DecodeError::InvalidField,
{
    match m {
        None => Ok(None),
        Some(Json::Null) => Ok(None),
        Some(Json::Object(entries)) => Ok(Some(entries)),
        _ => Err(DecodeError::InvalidField),
    }
}

/// Whether `v` is an object whose extended fields all have their types.
pub open spec fn additional_fields_valid(v: Json) -> bool {
    &&& v is Object
    &&& opt_text_ok(v.member("adarts"@))
    &&& opt_texts_ok(v.member("alias"@))
    &&& opt_text_ok(v.member("demanglerType"@))
    &&& opt_texts_ok(v.member("disabledFilters"@))
    &&& opt_array_ok(v.member("envVars"@))
    &&& opt_text_ok(v.member("executionWrapper"@))
    &&& opt_text_ok(v.member("fullVersion"@))
    &&& opt_text_ok(v.member("group"@))
    &&& opt_text_ok(v.member("groupName"@))
    &&& opt_bool_ok(v.member("hidden"@))
    &&& opt_text_ok(v.member("id"@))
    &&& opt_text_ok(v.member("includeFlag"@))
    &&& opt_text_ok(v.member("includePath"@))
    &&& opt_text_ok(v.member("intelAsm"@))
    &&& opt_bool_ok(v.member("interpreted"@))
    &&& opt_bool_ok(v.member("isSemVer"@))
    &&& opt_texts_ok(v.member("ldPath"@))
    &&& opt_texts_ok(v.member("libPath"@))
    &&& opt_text_ok(v.member("libpathFlag"@))
    &&& opt_texts_ok(v.member("libsArr"@))
    &&& opt_object_ok(v.member("license"@))
    &&& opt_text_ok(v.member("linkFlag"@))
    &&& opt_bool_ok(v.member("needsMulti"@))
    &&& opt_text_ok(v.member("notification"@))
    &&& text_default_ok(v.member("nvdisasm"@))
    &&& opt_text_ok(v.member("objdumper"@))
    &&& opt_text_ok(v.member("objdumperType"@))
    &&& opt_text_ok(v.member("optArg"@))
    &&& opt_text_ok(v.member("options"@))
    &&& opt_texts_ok(v.member("postProcess"@))
    &&& opt_text_ok(v.member("rpathFlag"@))
    &&& opt_bool_ok(v.member("supportsAsmDocs"@))
    &&& opt_bool_ok(v.member("supportsAstView"@))
    &&& opt_bool_ok(v.member("supportsBinary"@))
    &&& opt_bool_ok(v.member("supportsCfg"@))
    &&& opt_bool_ok(v.member("supportsDemangle"@))
    &&& opt_bool_ok(v.member("supportsExecute"@))
    &&& opt_bool_ok(v.member("supportsIntel"@))
    &&& opt_bool_ok(v.member("supportsLibraryCodeFilter"@))
    &&& opt_bool_ok(v.member("supportsOptOutput"@))
    &&& opt_bool_ok(v.member("supportsPpView"@))
    &&& opt_object_ok(v.member("tools"@))
    &&& opt_texts_ok(v.member("unwiseOptions"@))
    &&& opt_text_ok(v.member("version"@))
}

/// `f` holds the extended fields as `v` gives them.
pub open spec fn decodes_to_additional_fields(v: Json, f: AdditionalFields) -> bool {
    &&& view_text(f.adarts) == opt_text_of(v.member("adarts"@))
    &&& view_opt_texts(f.alias) == opt_texts_of(v.member("alias"@))
    &&& f.demangler@ == text_or_empty_of(v.member("demangler"@))
    &&& view_text(f.demangler_type) == opt_text_of(v.member("demanglerType"@))
    &&& view_opt_texts(f.disabled_filters) == opt_texts_of(v.member("disabledFilters"@))
    &&& f.env_vars == opt_array_of(v.member("envVars"@))
    &&& f.exe@ == text_or_empty_of(v.member("exe"@))
    &&& view_text(f.execution_wrapper) == opt_text_of(v.member("executionWrapper"@))
    &&& view_text(f.full_version) == opt_text_of(v.member("fullVersion"@))
    &&& view_text(f.group) == opt_text_of(v.member("group"@))
    &&& view_text(f.group_name) == opt_text_of(v.member("groupName"@))
    &&& f.hidden == opt_bool_of(v.member("hidden"@))
    &&& view_text(f.id) == opt_text_of(v.member("id"@))
    &&& view_text(f.include_flag) == opt_text_of(v.member("includeFlag"@))
    &&& view_text(f.include_path) == opt_text_of(v.member("includePath"@))
    &&& view_text(f.intel_asm) == opt_text_of(v.member("intelAsm"@))
    &&& f.interpreted == opt_bool_of(v.member("interpreted"@))
    &&& f.is_sem_ver == opt_bool_of(v.member("isSemVer"@))
    &&& view_opt_texts(f.ld_path) == opt_texts_of(v.member("ldPath"@))
    &&& view_opt_texts(f.lib_path) == opt_texts_of(v.member("libPath"@))
    &&& view_text(f.lib_path_flag) == opt_text_of(v.member("libpathFlag"@))
    &&& view_opt_texts(f.libs_arr) == opt_texts_of(v.member("libsArr"@))
    &&& f.license == opt_object_of(v.member("license"@))
    &&& view_text(f.link_flag) == opt_text_of(v.member("linkFlag"@))
    &&& f.needs_multi == opt_bool_of(v.member("needsMulti"@))
    &&& view_text(f.notification) == opt_text_of(v.member("notification"@))
    &&& f.nvdisasm@ == text_default_of(v.member("nvdisasm"@))
    &&& view_text(f.objdumper) == opt_text_of(v.member("objdumper"@))
    &&& view_text(f.objdumper_type) == opt_text_of(v.member("objdumperType"@))
    &&& view_text(f.opt_arg) == opt_text_of(v.member("optArg"@))
    &&& view_text(f.options) == opt_text_of(v.member("options"@))
    &&& view_opt_texts(f.post_process) == opt_texts_of(v.member("postProcess"@))
    &&& view_text(f.rpath_flag) == opt_text_of(v.member("rpathFlag"@))
    &&& f.supports_asm_docs == opt_bool_of(v.member("supportsAsmDocs"@))
    &&& f.supports_ast_view == opt_bool_of(v.member("supportsAstView"@))
    &&& f.supports_binary == opt_bool_of(v.member("supportsBinary"@))
    &&& f.supports_cfg == opt_bool_of(v.member("supportsCfg"@))
    &&& f.supports_demangle == opt_bool_of(v.member("supportsDemangle"@))
    &&& f.supports_execute == opt_bool_of(v.member("supportsExecute"@))
    &&& f.supports_intel == opt_bool_of(v.member("supportsIntel"@))
    &&& f.supports_library_code_filter == opt_bool_of(v.member("supportsLibraryCodeFilter"@))
    &&& f.supports_opt_output == opt_bool_of(v.member("supportsOptOutput"@))
    &&& f.supports_pp_view == opt_bool_of(v.member("supportsPpView"@))
    &&& f.tools == opt_object_of(v.member("tools"@))
    &&& view_opt_texts(f.unwise_options) == opt_texts_of(v.member("unwiseOptions"@))
    &&& view_text(f.version) == opt_text_of(v.member("version"@))
}

/// Decodes the extended fields of a compiler record. A field that is absent
/// or `null` is `None`; `demangler` and `exe` are empty unless they hold a
/// string; `nvdisasm` is empty where it is absent.
#[verifier::rlimit(50)]
pub fn decode_additional_fields(v: Json) -> (r: Result<AdditionalFields, DecodeError>)
    ensures
        r is Ok <==> additional_fields_valid(v),
        r is Ok ==> decodes_to_additional_fields(v, r->Ok_0),
        r is Err ==> r->Err_0 == record_error(v),
{
    if !v.is_object() {
        return Err(DecodeError::ExpectedObject);
    }
    let adarts = match opt_text(&v, "adarts") {
        Ok(x) => x,
        Err(e) => {
            return Err(e);
        },
    };
    let alias = match opt_texts(&v, "alias") {
        Ok(x) => x,
        Err(e) => {
            return Err(e);
        },
    };
    let demangler = text_or_empty(&v, "demangler");
    let demangler_type = match opt_text(&v, "demanglerType") {
        Ok(x) => x,
        Err(e) => {
            return Err(e);
        },
    };
    let disabled_filters = match opt_texts(&v, "disabledFilters") {
        Ok(x) => x,
        Err(e) => {
            return Err(e);
        },
    };
    let exe = text_or_empty(&v, "exe");
    let execution_wrapper = match opt_text(&v, "executionWrapper") {
        Ok(x) => x,
        Err(e) => {
            return Err(e);
        },
    };
    let full_version = match opt_text(&v, "fullVersion") {
        Ok(x) => x,
        Err(e) => {
            return Err(e);
        },
    };
    let group = match opt_text(&v, "group") {
        Ok(x) => x,
        Err(e) => {
            return Err(e);
        },
    };
    let group_name = match opt_text(&v, "groupName") {
        Ok(x) => x,
        Err(e) => {
            return Err(e);
        },
    };
    let hidden = match opt_bool(&v, "hidden") {
        Ok(x) => x,
        Err(e) => {
            return Err(e);
        },
    };
    let id = match opt_text(&v, "id") {
        Ok(x) => x,
        Err(e) => {
            return Err(e);
        },
    };
    let include_flag = match opt_text(&v, "includeFlag") {
        Ok(x) => x,
        Err(e) => {
            return Err(e);
        },
    };
    let include_path = match opt_text(&v, "includePath") {
        Ok(x) => x,
        Err(e) => {
            return Err(e);
        },
    };
    let intel_asm = match opt_text(&v, "intelAsm") {
        Ok(x) => x,
        Err(e) => {
            return Err(e);
        },
    };
    let interpreted = match opt_bool(&v, "interpreted") {
        Ok(x) => x,
        Err(e) => {
            return Err(e);
        },
    };
    let is_sem_ver = match opt_bool(&v, "isSemVer") {
        Ok(x) => x,
        Err(e) => {
            return Err(e);
        },
    };
    let ld_path = match opt_texts(&v, "ldPath") {
        Ok(x) => x,
        Err(e) => {
            return Err(e);
        },
    };
    let lib_path = match opt_texts(&v, "libPath") {
        Ok(x) => x,
        Err(e) => {
            return Err(e);
        },
    };
    let lib_path_flag = match opt_text(&v, "libpathFlag") {
        Ok(x) => x,
        Err(e) => {
            return Err(e);
        },
    };
    let libs_arr = match opt_texts(&v, "libsArr") {
        Ok(x) => x,
        Err(e) => {
            return Err(e);
        },
    };
    let link_flag = match opt_text(&v, "linkFlag") {
        Ok(x) => x,
        Err(e) => {
            return Err(e);
        },
    };
    let needs_multi = match opt_bool(&v, "needsMulti") {
        Ok(x) => x,
        Err(e) => {
            return Err(e);
        },
    };
    let notification = match opt_text(&v, "notification") {
        Ok(x) => x,
        Err(e) => {
            return Err(e);
        },
    };
    let nvdisasm = match text_or_default(&v, "nvdisasm") {
        Ok(x) => x,
        Err(e) => {
            return Err(e);
        },
    };
    let objdumper = match opt_text(&v, "objdumper") {
        Ok(x) => x,
        Err(e) => {
            return Err(e);
        },
    };
    let objdumper_type = match opt_text(&v, "objdumperType") {
        Ok(x) => x,
        Err(e) => {
            return Err(e);
        },
    };
    let opt_arg = match opt_text(&v, "optArg") {
        Ok(x) => x,
        Err(e) => {
            return Err(e);
        },
    };
    let options = match opt_text(&v, "options") {
        Ok(x) => x,
        Err(e) => {
            return Err(e);
        },
    };
    let post_process = match opt_texts(&v, "postProcess") {
        Ok(x) => x,
        Err(e) => {
            return Err(e);
        },
    };
    let rpath_flag = match opt_text(&v, "rpathFlag") {
        Ok(x) => x,
        Err(e) => {
            return Err(e);
        },
    };
    let supports_asm_docs = match opt_bool(&v, "supportsAsmDocs") {
        Ok(x) => x,
        Err(e) => {
            return Err(e);
        },
    };
    let supports_ast_view = match opt_bool(&v, "supportsAstView") {
        Ok(x) => x,
        Err(e) => {
            return Err(e);
        },
    };
    let supports_binary = match opt_bool(&v, "supportsBinary") {
        Ok(x) => x,
        Err(e) => {
            return Err(e);
        },
    };
    let supports_cfg = match opt_bool(&v, "supportsCfg") {
        Ok(x) => x,
        Err(e) => {
            return Err(e);
        },
    };
    let supports_demangle = match opt_bool(&v, "supportsDemangle") {
        Ok(x) => x,
        Err(e) => {
            return Err(e);
        },
    };
    let supports_execute = match opt_bool(&v, "supportsExecute") {
        Ok(x) => x,
        Err(e) => {
            return Err(e);
        },
    };
    let supports_intel = match opt_bool(&v, "supportsIntel") {
        Ok(x) => x,
        Err(e) => {
            return Err(e);
        },
    };
    let supports_library_code_filter = match opt_bool(&v, "supportsLibraryCodeFilter") {
        Ok(x) => x,
        Err(e) => {
            return Err(e);
        },
    };
    let supports_opt_output = match opt_bool(&v, "supportsOptOutput") {
        Ok(x) => x,
        Err(e) => {
            return Err(e);
        },
    };
    let supports_pp_view = match opt_bool(&v, "supportsPpView") {
        Ok(x) => x,
        Err(e) => {
            return Err(e);
        },
    };
    let unwise_options = match opt_texts(&v, "unwiseOptions") {
        Ok(x) => x,
        Err(e) => {
            return Err(e);
        },
    };
    let version = match opt_text(&v, "version") {
        Ok(x) => x,
        Err(e) => {
            return Err(e);
        },
    };
    let (env_vars_value, license_value, tools_value) = match v {
        Json::Object(mut entries) => {
            let env_vars_value = take_member(&mut entries, "envVars");
            let license_value = take_member(&mut entries, "license");
            let tools_value = take_member(&mut entries, "tools");
            proof {
                reveal_strlit("envVars");
                reveal_strlit("license");
                reveal_strlit("tools");
                assert("license"@[0] != "envVars"@[0]);
                assert("license"@ != "envVars"@);
                assert("tools"@[0] != "envVars"@[0]);
                assert("tools"@ != "envVars"@);
                assert("tools"@[0] != "license"@[0]);
                assert("tools"@ != "license"@);
            }
            (env_vars_value, license_value, tools_value)
        },
        _ => (None, None, None),
    };
    let env_vars = match opt_array(env_vars_value) {
        Ok(x) => x,
        Err(e) => {
            return Err(e);
        },
    };
    let license = match opt_object(license_value) {
        Ok(x) => x,
        Err(e) => {
            return Err(e);
        },
    };
    let tools = match opt_object(tools_value) {
        Ok(x) => x,
        Err(e) => {
            return Err(e);
        },
    };
    Ok(AdditionalFields {
        adarts,
        alias,
        demangler,
        demangler_type,
        disabled_filters,
        env_vars,
        exe,
        execution_wrapper,
        full_version,
        group,
        group_name,
        hidden,
        id,
        include_flag,
        include_path,
        intel_asm,
        interpreted,
        is_sem_ver,
        ld_path,
        lib_path,
        lib_path_flag,
        libs_arr,
        license,
        link_flag,
        needs_multi,
        notification,
        nvdisasm,
        objdumper,
        objdumper_type,
        opt_arg,
        options,
        post_process,
        rpath_flag,
        supports_asm_docs,
        supports_ast_view,
        supports_binary,
        supports_cfg,
        supports_demangle,
        supports_execute,
        supports_intel,
        supports_library_code_filter,
        supports_opt_output,
        supports_pp_view,
        tools,
        unwise_options,
        version,
    })
}

/// `items` in reverse order.
fn reversed(items: Vec<Json>) -> (r: Vec<Json>)
    ensures
        r@.len() == items@.len(),
        forall|j: int| 0 <= j < r@.len() ==> #[trigger] r@[j] == items@[items@.len() - 1 - j],
{
    let ghost n = items@.len();
    let ghost i0 = items@;
    let mut items = items;
    let mut r: Vec<Json> = Vec::new();
    while items.len() > 0
        invariant
            items@.len() + r@.len() == n,
            n == i0.len(),
            items@ == i0.subrange(0, items@.len() as int),
            forall|j: int| 0 <= j < r@.len() ==> #[trigger] r@[j] == i0[n - 1 - j],
        decreases items@.len(),
    {
        let x = items.pop().unwrap();
        r.push(x);
    }
    r
}

/// Decodes an array of extended-field records, taking the document apart;
/// fails on the first element that does not decode.
pub fn decode_additional_fields_list(v: Json) -> (r: Result<Vec<AdditionalFields>, DecodeError>)
    ensures
        !(v is Array) ==> r == Err::<Vec<AdditionalFields>, DecodeError>(DecodeError::ExpectedArray),
        v is Array ==> (r is Ok <==> forall|i: int|
            0 <= i < v->Array_0@.len() ==> additional_fields_valid(#[trigger] v->Array_0@[i])),
        r is Ok ==> r->Ok_0@.len() == v->Array_0@.len(),
        r is Ok ==> forall|i: int|
            0 <= i < r->Ok_0@.len() ==> decodes_to_additional_fields(
                v->Array_0@[i],
                #[trigger] r->Ok_0@[i],
            ),
        v is Array && r is Err ==> exists|j: int|
            0 <= j < v->Array_0@.len() && !additional_fields_valid(#[trigger] v->Array_0@[j]) && (
            forall|i: int| 0 <= i < j ==> additional_fields_valid(#[trigger] v->Array_0@[i]))
                && r->Err_0 == record_error(v->Array_0@[j]),
{
    match v {
        Json::Array(items) => {
            let ghost i0 = items@;
            let ghost n = items@.len();
            let mut rest = reversed(items);
            let mut out: Vec<AdditionalFields> = Vec::new();
            while rest.len() > 0
                invariant
                    n == i0.len(),
                    v is Array,
                    v->Array_0@ == i0,
                    rest@.len() + out@.len() == n,
                    forall|j: int| 0 <= j < rest@.len() ==> #[trigger] rest@[j] == i0[n - 1 - j],
                    forall|j: int| 0 <= j < out@.len() ==> additional_fields_valid(#[trigger] i0[j]),
                    forall|j: int|
                        0 <= j < out@.len() ==> decodes_to_additional_fields(i0[j], #[trigger] out@[j]),
                decreases rest@.len(),
            {
                let x = rest.pop().unwrap();
                assert(x == i0[out@.len() as int]);
                match decode_additional_fields(x) {
                    Ok(f) => out.push(f),
                    Err(e) => {
                        return Err(e);
                    },
                }
            }
            Ok(out)
        },
        _ => Err(DecodeError::ExpectedArray),
    }
}

/// The integer under a member, where it fits in an `i64`.
pub open spec fn int_of(m: Option<Json>) -> Option<i64> {
    match m {
        Some(Json::PosInt(n)) => if n <= i64::MAX as u64 {
            Some(n as i64)
        } else {
            None
        },
        Some(Json::NegInt(n)) => Some(n),
        _ => None,
    }
}

fn int_member(v: &Json, key: &str) -> (r: Result<i64, DecodeError>)
    ensures
        r is Ok <==> int_of(v.member(key@)) is Some,
        r is Ok ==> r->Ok_0 == int_of(v.member(key@))->0,
        r is Err ==> r->Err_0 == DecodeError::InvalidField,
{
    match v.get(key) {
        Some(Json::PosInt(n)) => if *n <= i64::MAX as u64 {
            Ok(*n as i64)
        } else {
            Err(DecodeError::InvalidField)
        },
        Some(Json::NegInt(n)) => Ok(*n),
        _ => Err(DecodeError::InvalidField),
    }
}

/// The boolean under a member.
pub open spec fn bool_of(m: Option<Json>) -> Option<bool> {
    match m {
        Some(Json::Bool(b)) => Some(b),
        _ => None,
    }
}

pub(crate) fn bool_member(v: &Json, key: &str) -> (r: Result<bool, DecodeError>)
    ensures
        r is Ok <==> bool_of(v.member(key@)) is Some,
        r is Ok ==> r->Ok_0 == bool_of(v.member(key@))->0,
        r is Err ==> r->Err_0 == DecodeError::InvalidField,
{
    match v.get(key) {
        Some(Json::Bool(b)) => Ok(*b),
        _ => Err(DecodeError::InvalidField),
    }
}

/// The items of an array member; empty for anything else.
pub open spec fn items_of(m: Option<Json>) -> Seq<Json> {
    match m {
        Some(Json::Array(items)) => items@,
        _ => Seq::empty(),
    }
}

/// Each item, with `null` held as `None`.
pub open spec fn loose_of(items: Seq<Json>) -> Seq<Option<Json>> {
    Seq::new(items.len(), |i: int| if items[i] is Null { None } else { Some(items[i]) })
}

/// Keeps each item of an array, `null` as `None`, in order.
fn loose_items(items: Vec<Json>) -> (r: Vec<Option<Json>>)
    ensures
        r@ == loose_of(items@),
{
    let ghost i0 = items@;
    let ghost n = items@.len();
    let mut rest = reversed(items);
    let mut out: Vec<Option<Json>> = Vec::new();
    while rest.len() > 0
        invariant
            n == i0.len(),
            rest@.len() + out@.len() == n,
            forall|j: int| 0 <= j < rest@.len() ==> #[trigger] rest@[j] == i0[n - 1 - j],
            forall|j: int| 0 <= j < out@.len() ==> #[trigger] out@[j] == loose_of(i0)[j],
        decreases rest@.len(),
    {
        let x = rest.pop().unwrap();
        assert(x == i0[out@.len() as int]);
        match x {
            Json::Null => out.push(None),
            other => out.push(Some(other)),
        }
    }
    assert(out@ =~= loose_of(i0));
    out
}

/// An array member whose items may be any value.
fn loose_array(m: Option<Json>) -> (r: Result<Vec<Option<Json>>, DecodeError>)
    ensures
        r is Ok <==> (m is Some && m->0 is Array),
        r is Ok ==> r->Ok_0@ == loose_of(items_of(m)),
        r is Err ==> r->Err_0 == DecodeError::InvalidField,
{
    match m {
        Some(Json::Array(items)) => Ok(loose_items(items)),
        _ => Err(DecodeError::InvalidField),
    }
}

/// An array member.
fn array(m: Option<Json>) -> (r: Result<Vec<Json>, DecodeError>)
    ensures
        r is Ok <==> (m is Some && m->0 is Array),
        r is Ok ==> r->Ok_0@ == items_of(m),
        r is Err ==> r->Err_0 == DecodeError::InvalidField,
{
    match m {
        Some(Json::Array(items)) => Ok(items),
        _ => Err(DecodeError::InvalidField),
    }
}

/// An object member.
fn object(m: Option<Json>) -> (r: Result<Vec<(String, Json)>, DecodeError>)
    ensures
        r is Ok <==> (m is Some && m->0 is Object),
        r is Ok ==> r->Ok_0 == m->0->Object_0,
        r is Err ==> r->Err_0 == DecodeError::InvalidField,
{
    match m {
        Some(Json::Object(entries)) => Ok(entries),
        _ => Err(DecodeError::InvalidField),
    }
}

/// Whether every item is an object.
pub open spec fn all_objects(items: Seq<Json>) -> bool {
    forall|i: int| 0 <= i < items.len() ==> (#[trigger] items[i]) is Object
}

/// An array member whose items are all objects, each kept as its entries.
fn objects(m: Option<Json>) -> (r: Result<Vec<Vec<(String, Json)>>, DecodeError>)
    ensures
        r is Ok <==> (m is Some && m->0 is Array && all_objects(items_of(m))),
        r is Ok ==> r->Ok_0@.len() == items_of(m).len(),
        r is Ok ==> forall|i: int|
            0 <= i < r->Ok_0@.len() ==> items_of(m)[i] == Json::Object(#[trigger] r->Ok_0@[i]),
        r is Err ==> r->Err_0 == DecodeError::InvalidField,
{
    match m {
        Some(Json::Array(items)) => {
            let ghost i0 = items@;
            let ghost n = items@.len();
            let mut rest = reversed(items);
            let mut out: Vec<Vec<(String, Json)>> = Vec::new();
            while rest.len() > 0
                invariant
                    n == i0.len(),
                    m == Some(Json::Array(items)),
                    i0 == items@,
                    rest@.len() + out@.len() == n,
                    forall|j: int| 0 <= j < rest@.len() ==> #[trigger] rest@[j] == i0[n - 1 - j],
                    forall|j: int| 0 <= j < out@.len() ==> i0[j] == Json::Object(#[trigger] out@[j]),
                decreases rest@.len(),
            {
                let x = rest.pop().unwrap();
                assert(x == i0[out@.len() as int]);
                match x {
                    Json::Object(entries) => out.push(entries),
                    _ => {
                        return Err(DecodeError::InvalidField);
                    },
                }
            }
            assert forall|i: int| 0 <= i < i0.len() implies (#[trigger] i0[i]) is Object by {
                assert(i0[i] == Json::Object(out@[i]));
            }
            Ok(out)
        },
        _ => Err(DecodeError::InvalidField),
    }
}

/// Whether `v` is an object that holds every field of a compilation result with its type.
pub open spec fn compilation_response_valid(v: Json) -> bool {
    &&& v is Object
    &&& text_member(v, "inputFilename"@) is Some
    &&& int_of(v.member("code"@)) is Some
    &&& bool_of(v.member("okToCache"@)) is Some
    &&& bool_of(v.member("timedOut"@)) is Some
    &&& text_member(v, "execTime"@) is Some
    &&& texts_member(v, "compilationOptions"@) is Some
    &&& int_of(v.member("asmSize"@)) is Some
    &&& text_member(v, "parsingTime"@) is Some
    &&& int_of(v.member("filteredCount"@)) is Some
    &&& v.member("stdout"@) is Some && v.member("stdout"@)->0 is Array
    &&& v.member("stderr"@) is Some && v.member("stderr"@)->0 is Array
    &&& v.member("downloads"@) is Some && v.member("downloads"@)->0 is Array
    &&& v.member("tools"@) is Some && v.member("tools"@)->0 is Array
    &&& v.member("asm"@) is Some && v.member("asm"@)->0 is Array
    &&& v.member("labelDefinitions"@) is Some
    &&& v.member("popularArguments"@) is Some && v.member("popularArguments"@)->0 is Object
}

/// `c` holds the fields of a compilation result as `v` gives them.
pub open spec fn decodes_to_compilation_response(v: Json, c: CompilationResponse) -> bool {
    &&& c.input_filename@ == text_member(v, "inputFilename"@)->0
    &&& c.code == int_of(v.member("code"@))->0
    &&& c.ok_to_cache == bool_of(v.member("okToCache"@))->0
    &&& c.timed_out == bool_of(v.member("timedOut"@))->0
    &&& c.exec_time@ == text_member(v, "execTime"@)->0
    &&& view_texts(c.compilation_options@) == texts_member(v, "compilationOptions"@)->0
    &&& c.asm_size == int_of(v.member("asmSize"@))->0
    &&& c.parsing_time@ == text_member(v, "parsingTime"@)->0
    &&& c.filtered_count == int_of(v.member("filteredCount"@))->0
    &&& c.stdout@ == loose_of(items_of(v.member("stdout"@)))
    &&& c.stderr@ == loose_of(items_of(v.member("stderr"@)))
    &&& c.downloads@ == loose_of(items_of(v.member("downloads"@)))
    &&& c.tools@ == loose_of(items_of(v.member("tools"@)))
    &&& c.assembly@ == items_of(v.member("asm"@))
    &&& c.label_definitions == v.member("labelDefinitions"@)->0
    &&& c.popular_arguments == v.member("popularArguments"@)->0->Object_0
}

/// Decodes a compilation result, taking the document apart. The output arrays may hold any value in any
/// position; every field is required.
#[verifier::rlimit(50)]
pub fn decode_compilation_response(v: Json) -> (r: Result<CompilationResponse, DecodeError>)
    ensures
        r is Ok <==> compilation_response_valid(v),
        r is Ok ==> decodes_to_compilation_response(v, r->Ok_0),
        r is Err ==> r->Err_0 == record_error(v),
{
    if !v.is_object() {
        return Err(DecodeError::ExpectedObject);
    }
    let input_filename = match text_of(&v, "inputFilename") {
        Some(s) => s,
        None => {
            return Err(DecodeError::InvalidField);
        },
    };
    let code = match int_member(&v, "code") {
        Ok(x) => x,
        Err(e) => {
            return Err(e);
        },
    };
    let ok_to_cache = match bool_member(&v, "okToCache") {
        Ok(x) => x,
        Err(e) => {
            return Err(e);
        },
    };
    let timed_out = match bool_member(&v, "timedOut") {
        Ok(x) => x,
        Err(e) => {
            return Err(e);
        },
    };
    let exec_time = match text_of(&v, "execTime") {
        Some(s) => s,
        None => {
            return Err(DecodeError::InvalidField);
        },
    };
    let compilation_options = match texts_of(&v, "compilationOptions") {
        Some(s) => s,
        None => {
            return Err(DecodeError::InvalidField);
        },
    };
    let asm_size = match int_member(&v, "asmSize") {
        Ok(x) => x,
        Err(e) => {
            return Err(e);
        },
    };
    let parsing_time = match text_of(&v, "parsingTime") {
        Some(s) => s,
        None => {
            return Err(DecodeError::InvalidField);
        },
    };
    let filtered_count = match int_member(&v, "filteredCount") {
        Ok(x) => x,
        Err(e) => {
            return Err(e);
        },
    };
    let (stdout_value, stderr_value, downloads_value, tools_value, assembly_value, label_definitions_value, popular_arguments_value) = match v {
        Json::Object(mut entries) => {
            let stdout_value = take_member(&mut entries, "stdout");
            let stderr_value = take_member(&mut entries, "stderr");
            let downloads_value = take_member(&mut entries, "downloads");
            let tools_value = take_member(&mut entries, "tools");
            let assembly_value = take_member(&mut entries, "asm");
            let label_definitions_value = take_member(&mut entries, "labelDefinitions");
            let popular_arguments_value = take_member(&mut entries, "popularArguments");
            proof {
                reveal_strlit("stdout");
                reveal_strlit("stderr");
                reveal_strlit("downloads");
                reveal_strlit("tools");
                reveal_strlit("asm");
                reveal_strlit("labelDefinitions");
                reveal_strlit("popularArguments");
                assert("stderr"@[3] != "stdout"@[3]);
                assert("stderr"@ != "stdout"@);
                assert("downloads"@.len() != "stdout"@.len());
                assert("downloads"@ != "stdout"@);
                assert("downloads"@.len() != "stderr"@.len());
                assert("downloads"@ != "stderr"@);
                assert("tools"@.len() != "stdout"@.len());
                assert("tools"@ != "stdout"@);
                assert("tools"@.len() != "stderr"@.len());
                assert("tools"@ != "stderr"@);
                assert("tools"@.len() != "downloads"@.len());
                assert("tools"@ != "downloads"@);
                assert("asm"@.len() != "stdout"@.len());
                assert("asm"@ != "stdout"@);
                assert("asm"@.len() != "stderr"@.len());
                assert("asm"@ != "stderr"@);
                assert("asm"@.len() != "downloads"@.len());
                assert("asm"@ != "downloads"@);
                assert("asm"@.len() != "tools"@.len());
                assert("asm"@ != "tools"@);
                assert("labelDefinitions"@.len() != "stdout"@.len());
                assert("labelDefinitions"@ != "stdout"@);
                assert("labelDefinitions"@.len() != "stderr"@.len());
                assert("labelDefinitions"@ != "stderr"@);
                assert("labelDefinitions"@.len() != "downloads"@.len());
                assert("labelDefinitions"@ != "downloads"@);
                assert("labelDefinitions"@.len() != "tools"@.len());
                assert("labelDefinitions"@ != "tools"@);
                assert("labelDefinitions"@.len() != "asm"@.len());
                assert("labelDefinitions"@ != "asm"@);
                assert("popularArguments"@.len() != "stdout"@.len());
                assert("popularArguments"@ != "stdout"@);
                assert("popularArguments"@.len() != "stderr"@.len());
                assert("popularArguments"@ != "stderr"@);
                assert("popularArguments"@.len() != "downloads"@.len());
                assert("popularArguments"@ != "downloads"@);
                assert("popularArguments"@.len() != "tools"@.len());
                assert("popularArguments"@ != "tools"@);
                assert("popularArguments"@.len() != "asm"@.len());
                assert("popularArguments"@ != "asm"@);
                assert("popularArguments"@[0] != "labelDefinitions"@[0]);
                assert("popularArguments"@ != "labelDefinitions"@);
            }
            (stdout_value, stderr_value, downloads_value, tools_value, assembly_value, label_definitions_value, popular_arguments_value)
        },
        _ => (None, None, None, None, None, None, None),
    };
    let stdout = match loose_array(stdout_value) {
        Ok(x) => x,
        Err(e) => {
            return Err(e);
        },
    };
    let stderr = match loose_array(stderr_value) {
        Ok(x) => x,
        Err(e) => {
            return Err(e);
        },
    };
    let downloads = match loose_array(downloads_value) {
        Ok(x) => x,
        Err(e) => {
            return Err(e);
        },
    };
    let tools = match loose_array(tools_value) {
        Ok(x) => x,
        Err(e) => {
            return Err(e);
        },
    };
    let assembly = match array(assembly_value) {
        Ok(x) => x,
        Err(e) => {
            return Err(e);
        },
    };
    let label_definitions = match label_definitions_value {
        Some(x) => x,
        None => {
            return Err(DecodeError::InvalidField);
        },
    };
    let popular_arguments = match object(popular_arguments_value) {
        Ok(x) => x,
        Err(e) => {
            return Err(e);
        },
    };
    Ok(CompilationResponse {
        input_filename,
        code,
        ok_to_cache,
        timed_out,
        exec_time,
        compilation_options,
        asm_size,
        parsing_time,
        filtered_count,
        stdout,
        stderr,
        downloads,
        tools,
        assembly,
        label_definitions,
        popular_arguments,
    })
}

/// Whether `v` is an object that holds every field of a library record with its type.
pub open spec fn library_valid(v: Json) -> bool {
    &&& v is Object
    &&& text_member(v, "id"@) is Some
    &&& text_member(v, "name"@) is Some
    &&& text_member(v, "url"@) is Some
    &&& v.member("versions"@) is Some && v.member("versions"@)->0 is Array && all_objects(items_of(v.member("versions"@)))
}

/// `c` holds the fields of a library record as `v` gives them.
pub open spec fn decodes_to_library(v: Json, c: Library) -> bool {
    &&& c.id@ == text_member(v, "id"@)->0
    &&& c.name@ == text_member(v, "name"@)->0
    &&& c.url@ == text_member(v, "url"@)->0
    &&& c.versions@.len() == items_of(v.member("versions"@)).len()
    &&& forall|i: int| 0 <= i < c.versions@.len() ==> items_of(v.member("versions"@))[i] == Json::Object(#[trigger] c.versions@[i])
}

/// Decodes a library record, taking the document apart.
#[verifier::rlimit(50)]
pub fn decode_library(v: Json) -> (r: Result<Library, DecodeError>)
    ensures
        r is Ok <==> library_valid(v),
        r is Ok ==> decodes_to_library(v, r->Ok_0),
        r is Err ==> r->Err_0 == record_error(v),
{
    if !v.is_object() {
        return Err(DecodeError::ExpectedObject);
    }
    let id = match text_of(&v, "id") {
        Some(s) => s,
        None => {
            return Err(DecodeError::InvalidField);
        },
    };
    let name = match text_of(&v, "name") {
        Some(s) => s,
        None => {
            return Err(DecodeError::InvalidField);
        },
    };
    let url = match text_of(&v, "url") {
        Some(s) => s,
        None => {
            return Err(DecodeError::InvalidField);
        },
    };
    let (versions_value) = match v {
        Json::Object(mut entries) => {
            let versions_value = take_member(&mut entries, "versions");
            proof {
                reveal_strlit("versions");

            }
            (versions_value)
        },
        _ => (None),
    };
    let versions = match objects(versions_value) {
        Ok(x) => x,
        Err(e) => {
            return Err(e);
        },
    };
    Ok(Library {
        id,
        name,
        url,
        versions,
    })
}

/// Decodes an array of library records, failing on the first element that
/// does not decode.
pub fn decode_libraries(v: Json) -> (r: Result<Vec<Library>, DecodeError>)
    ensures
        !(v is Array) ==> r == Err::<Vec<Library>, DecodeError>(DecodeError::ExpectedArray),
        v is Array ==> (r is Ok <==> forall|i: int|
            0 <= i < v->Array_0@.len() ==> library_valid(#[trigger] v->Array_0@[i])),
        r is Ok ==> r->Ok_0@.len() == v->Array_0@.len(),
        r is Ok ==> forall|i: int|
            0 <= i < r->Ok_0@.len() ==> decodes_to_library(v->Array_0@[i], #[trigger] r->Ok_0@[i]),
        v is Array && r is Err ==> exists|j: int|
            0 <= j < v->Array_0@.len() && !library_valid(#[trigger] v->Array_0@[j]) && (forall|i: int|
                0 <= i < j ==> library_valid(#[trigger] v->Array_0@[i])) && r->Err_0 == record_error(
                v->Array_0@[j],
            ),
{
    match v {
        Json::Array(items) => {
            let ghost i0 = items@;
            let ghost n = items@.len();
            let mut rest = reversed(items);
            let mut out: Vec<Library> = Vec::new();
            while rest.len() > 0
                invariant
                    n == i0.len(),
                    v is Array,
                    v->Array_0@ == i0,
                    rest@.len() + out@.len() == n,
                    forall|j: int| 0 <= j < rest@.len() ==> #[trigger] rest@[j] == i0[n - 1 - j],
                    forall|j: int| 0 <= j < out@.len() ==> library_valid(#[trigger] i0[j]),
                    forall|j: int| 0 <= j < out@.len() ==> decodes_to_library(i0[j], #[trigger] out@[j]),
                decreases rest@.len(),
            {
                let x = rest.pop().unwrap();
                assert(x == i0[out@.len() as int]);
                match decode_library(x) {
                    Ok(l) => out.push(l),
                    Err(e) => {
                        return Err(e);
                    },
                }
            }
            Ok(out)
        },
        _ => Err(DecodeError::ExpectedArray),
    }
}

/// Every compiler of a decoded listing has a non-empty `id`, wherever the
/// listing gives each record a non-empty `id`.
pub proof fn listing_ids_non_empty(items: Seq<Json>, compilers: Seq<Compiler>)
    requires
        compilers.len() == items.len(),
        forall|i: int| 0 <= i < items.len() ==> decodes_to_compiler(items[i], #[trigger] compilers[i]),
        forall|i: int|
            0 <= i < items.len() ==> (#[trigger] text_member(items[i], "id"@))->0.len() > 0,
    ensures
        forall|i: int| 0 <= i < compilers.len() ==> (#[trigger] compilers[i]).id@.len() > 0,
{
    assert forall|i: int| 0 <= i < compilers.len() implies (#[trigger] compilers[i]).id@.len() > 0 by {
        assert(decodes_to_compiler(items[i], compilers[i]));
        assert(text_member(items[i], "id"@)->0.len() > 0);
    }
}

/// Whether `v` is a string, a boolean or a number.
pub open spec fn is_scalar(v: Json) -> bool {
    v is Str || v is Bool || v is PosInt || v is NegInt || v is Float
}

/// The instruction set of a compiler record decodes to text whether the
/// document holds it as a string, a boolean or a number: a record whose
/// other base fields are strings decodes, and its instruction set is the
/// text of that scalar.
pub proof fn instruction_set_scalar_decodes(v: Json, c: Compiler)
    requires
        v is Object,
        text_member(v, "compilerType"@) is Some,
        text_member(v, "id"@) is Some,
        text_member(v, "lang"@) is Some,
        text_member(v, "name"@) is Some,
        text_member(v, "semver"@) is Some,
        v.member("instructionSet"@) is Some,
        is_scalar(v.member("instructionSet"@)->0),
        decodes_to_compiler(v, c),
    ensures
        compiler_valid(v),
        c.instruction_set@ == scalar_text(v.member("instructionSet"@)->0)->0,
{
}

/// Where an object holds no `demangler` and no `exe`, the decoded extended
/// fields hold both as empty text.
pub proof fn absent_demangler_and_exe_are_empty(v: Json, f: AdditionalFields)
    requires
        v.member("demangler"@) is None,
        v.member("exe"@) is None,
        decodes_to_additional_fields(v, f),
    ensures
        f.demangler@ == Seq::<char>::empty(),
        f.exe@ == Seq::<char>::empty(),
{
}

/// A compilation result without a `code` field does not decode.
pub proof fn response_without_code_fails(v: Json)
    requires
        v.member("code"@) is None,
    ensures
        !compilation_response_valid(v),
{
}

/// The output arrays of a compilation result keep each `null` item as
/// `None` and every other item, whatever its shape, as a value.
pub proof fn output_items_do_not_matter(v: Json, c: CompilationResponse)
    requires
        decodes_to_compilation_response(v, c),
    ensures
        forall|i: int|
            0 <= i < c.stdout@.len() ==> ((#[trigger] c.stdout@[i]) is None <==> items_of(
                v.member("stdout"@),
            )[i] is Null),
        forall|i: int|
            0 <= i < c.stderr@.len() ==> ((#[trigger] c.stderr@[i]) is None <==> items_of(
                v.member("stderr"@),
            )[i] is Null),
{
}

} // verus!
