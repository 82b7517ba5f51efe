//! The JSON body of a compile request, and its decoding.
use vstd::prelude::*;
use vstd::string::*;
use crate::decode::{bool_member, bool_of, record_error, text_member, text_of, DecodeError};
use crate::json::{lookup, Json};
use crate::request::{Filters, Options, Source};

verus! {

/// Appending an entry makes its key give its value and leaves every other
/// key as it was.
proof fn lemma_lookup_push(entries: Seq<(String, Json)>, e: (String, Json))
    ensures
        forall|k: Seq<char>|
            #[trigger] lookup(entries.push(e), k) == if e.0@ == k {
                Some(e.1)
            } else {
                lookup(entries, k)
            },
{
    assert(entries.push(e).drop_last() =~= entries);
}

/// Appends the member `key` with `value`.
fn push_entry(entries: &mut Vec<(String, Json)>, key: &str, value: Json)
    ensures
        final(entries)@ == old(entries)@.push((final(entries)@.last().0, value)),
        final(entries)@.last().0@ == key@,
        forall|k: Seq<char>|
            #[trigger] lookup(final(entries)@, k) == if k == key@ {
                Some(value)
            } else {
                lookup(old(entries)@, k)
            },
{
    let ghost before = entries@;
    entries.push((String::from_str(key), value));
    proof {
        lemma_lookup_push(before, entries@.last());
        assert(entries@.drop_last() =~= before);
    }
}

/// `j` is the object that the filters `f` are sent as.
pub open spec fn encodes_filters(j: Json, f: Filters) -> bool {
    &&& j is Object
    &&& bool_of(j.member("binary"@)) == Some(f.binary)
    &&& bool_of(j.member("commentOnly"@)) == Some(f.comment_only)
    &&& bool_of(j.member("demangle"@)) == Some(f.demangle)
    &&& bool_of(j.member("directives"@)) == Some(f.directives)
    &&& bool_of(j.member("execute"@)) == Some(f.execute)
    &&& bool_of(j.member("intel"@)) == Some(f.intel)
    &&& bool_of(j.member("labels"@)) == Some(f.labels)
    &&& bool_of(j.member("libraryCode"@)) == Some(f.library_code)
    &&& bool_of(j.member("trim"@)) == Some(f.trim)
}

/// The filters as the object sent to the service.
pub fn encode_filters(f: &Filters) -> (r: Json)
    ensures
        encodes_filters(r, *f),
{
    let mut entries: Vec<(String, Json)> = Vec::new();
    push_entry(&mut entries, "binary", Json::Bool(f.binary));
    push_entry(&mut entries, "commentOnly", Json::Bool(f.comment_only));
    push_entry(&mut entries, "demangle", Json::Bool(f.demangle));
    push_entry(&mut entries, "directives", Json::Bool(f.directives));
    push_entry(&mut entries, "execute", Json::Bool(f.execute));
    push_entry(&mut entries, "intel", Json::Bool(f.intel));
    push_entry(&mut entries, "labels", Json::Bool(f.labels));
    push_entry(&mut entries, "libraryCode", Json::Bool(f.library_code));
    push_entry(&mut entries, "trim", Json::Bool(f.trim));
    proof {
        reveal_strlit("binary");
        reveal_strlit("commentOnly");
        reveal_strlit("demangle");
        reveal_strlit("directives");
        reveal_strlit("execute");
        reveal_strlit("intel");
        reveal_strlit("labels");
        reveal_strlit("libraryCode");
        reveal_strlit("trim");
        assert("commentOnly"@.len() != "binary"@.len());
        assert("demangle"@.len() != "binary"@.len());
        assert("demangle"@.len() != "commentOnly"@.len());
        assert("directives"@.len() != "binary"@.len());
        assert("directives"@.len() != "commentOnly"@.len());
        assert("directives"@.len() != "demangle"@.len());
        assert("execute"@.len() != "binary"@.len());
        assert("execute"@.len() != "commentOnly"@.len());
        assert("execute"@.len() != "demangle"@.len());
        assert("execute"@.len() != "directives"@.len());
        assert("intel"@.len() != "binary"@.len());
        assert("intel"@.len() != "commentOnly"@.len());
        assert("intel"@.len() != "demangle"@.len());
        assert("intel"@.len() != "directives"@.len());
        assert("intel"@.len() != "execute"@.len());
        assert("labels"@[0] != "binary"@[0]);
        assert("labels"@.len() != "commentOnly"@.len());
        assert("labels"@.len() != "demangle"@.len());
        assert("labels"@.len() != "directives"@.len());
        assert("labels"@.len() != "execute"@.len());
        assert("labels"@.len() != "intel"@.len());
        assert("libraryCode"@.len() != "binary"@.len());
        assert("libraryCode"@[0] != "commentOnly"@[0]);
        assert("libraryCode"@.len() != "demangle"@.len());
        assert("libraryCode"@.len() != "directives"@.len());
        assert("libraryCode"@.len() != "execute"@.len());
        assert("libraryCode"@.len() != "intel"@.len());
        assert("libraryCode"@.len() != "labels"@.len());
        assert("trim"@.len() != "binary"@.len());
        assert("trim"@.len() != "commentOnly"@.len());
        assert("trim"@.len() != "demangle"@.len());
        assert("trim"@.len() != "directives"@.len());
        assert("trim"@.len() != "execute"@.len());
        assert("trim"@.len() != "intel"@.len());
        assert("trim"@.len() != "labels"@.len());
        assert("trim"@.len() != "libraryCode"@.len());
    }
    Json::Object(entries)
}

/// Whether `v` is an object that holds every filter as a boolean.
pub open spec fn filters_valid(v: Json) -> bool {
    &&& v is Object
    &&& bool_of(v.member("binary"@)) is Some
    &&& bool_of(v.member("commentOnly"@)) is Some
    &&& bool_of(v.member("demangle"@)) is Some
    &&& bool_of(v.member("directives"@)) is Some
    &&& bool_of(v.member("execute"@)) is Some
    &&& bool_of(v.member("intel"@)) is Some
    &&& bool_of(v.member("labels"@)) is Some
    &&& bool_of(v.member("libraryCode"@)) is Some
    &&& bool_of(v.member("trim"@)) is Some
}

/// `f` holds the filters as `v` gives them.
pub open spec fn decodes_to_filters(v: Json, f: Filters) -> bool {
    &&& f.binary == bool_of(v.member("binary"@))->0
    &&& f.comment_only == bool_of(v.member("commentOnly"@))->0
    &&& f.demangle == bool_of(v.member("demangle"@))->0
    &&& f.directives == bool_of(v.member("directives"@))->0
    &&& f.execute == bool_of(v.member("execute"@))->0
    &&& f.intel == bool_of(v.member("intel"@))->0
    &&& f.labels == bool_of(v.member("labels"@))->0
    &&& f.library_code == bool_of(v.member("libraryCode"@))->0
    &&& f.trim == bool_of(v.member("trim"@))->0
}

/// Decodes the filters of a compile request.
pub fn decode_filters(v: &Json) -> (r: Result<Filters, DecodeError>)
    ensures
        r is Ok <==> filters_valid(*v),
        r is Ok ==> decodes_to_filters(*v, r->Ok_0),
        r is Err ==> r->Err_0 == record_error(*v),
{
    if !v.is_object() {
        return Err(DecodeError::ExpectedObject);
    }
    let binary = match bool_member(v, "binary") {
        Ok(x) => x,
        Err(e) => {
            return Err(e);
        },
    };
    let comment_only = match bool_member(v, "commentOnly") {
        Ok(x) => x,
        Err(e) => {
            return Err(e);
        },
    };
    let demangle = match bool_member(v, "demangle") {
        Ok(x) => x,
        Err(e) => {
            return Err(e);
        },
    };
    let directives = match bool_member(v, "directives") {
        Ok(x) => x,
        Err(e) => {
            return Err(e);
        },
    };
    let execute = match bool_member(v, "execute") {
        Ok(x) => x,
        Err(e) => {
            return Err(e);
        },
    };
    let intel = match bool_member(v, "intel") {
        Ok(x) => x,
        Err(e) => {
            return Err(e);
        },
    };
    let labels = match bool_member(v, "labels") {
        Ok(x) => x,
        Err(e) => {
            return Err(e);
        },
    };
    let library_code = match bool_member(v, "libraryCode") {
        Ok(x) => x,
        Err(e) => {
            return Err(e);
        },
    };
    let trim = match bool_member(v, "trim") {
        Ok(x) => x,
        Err(e) => {
            return Err(e);
        },
    };
    Ok(Filters {
        binary,
        comment_only,
        demangle,
        directives,
        execute,
        intel,
        labels,
        library_code,
        trim,
    })
}

/// `j` is the object that the options `o` are sent as.
pub open spec fn encodes_options(j: Json, o: Options) -> bool {
    &&& j is Object
    &&& text_member(j, "userArguments"@) == Some(o.user_arguments@)
    &&& j.member("filters"@) is Some
    &&& encodes_filters(j.member("filters"@)->0, o.filters)
}

/// The options as the object sent to the service.
pub fn encode_options(o: &Options) -> (r: Json)
    ensures
        encodes_options(r, *o),
{
    let mut entries: Vec<(String, Json)> = Vec::new();
    push_entry(&mut entries, "userArguments", Json::Str(o.user_arguments.clone()));
    push_entry(&mut entries, "filters", encode_filters(&o.filters));
    proof {
        reveal_strlit("userArguments");
        reveal_strlit("filters");
        assert("userArguments"@.len() != "filters"@.len());
    }
    Json::Object(entries)
}

/// Whether `v` is an object with text arguments and valid filters.
pub open spec fn options_valid(v: Json) -> bool {
    &&& v is Object
    &&& text_member(v, "userArguments"@) is Some
    &&& v.member("filters"@) is Some
    &&& filters_valid(v.member("filters"@)->0)
}

/// `o` holds the options as `v` gives them.
pub open spec fn decodes_to_options(v: Json, o: Options) -> bool {
    &&& o.user_arguments@ == text_member(v, "userArguments"@)->0
    &&& decodes_to_filters(v.member("filters"@)->0, o.filters)
}

/// Decodes the options of a compile request.
pub fn decode_options(v: &Json) -> (r: Result<Options, DecodeError>)
    ensures
        r is Ok <==> options_valid(*v),
        r is Ok ==> decodes_to_options(*v, r->Ok_0),
        r is Err ==> r->Err_0 == record_error(*v),
{
    if !v.is_object() {
        return Err(DecodeError::ExpectedObject);
    }
    let user_arguments = match text_of(v, "userArguments") {
        Some(s) => s,
        None => {
            return Err(DecodeError::InvalidField);
        },
    };
    let filters = match v.get("filters") {
        Some(f) => match decode_filters(f) {
            Ok(x) => x,
            Err(_) => {
                return Err(DecodeError::InvalidField);
            },
        },
        None => {
            return Err(DecodeError::InvalidField);
        },
    };
    Ok(Options { user_arguments, filters })
}

/// `j` is the body of the compile request `s`.
pub open spec fn encodes_source(j: Json, s: Source) -> bool {
    &&& j is Object
    &&& text_member(j, "source"@) == Some(s.source@)
    &&& j.member("options"@) is Some
    &&& encodes_options(j.member("options"@)->0, s.options)
}

/// The body of a compile request; the source text is sent unchanged.
pub fn encode_source(s: &Source) -> (r: Json)
    ensures
        encodes_source(r, *s),
{
    let mut entries: Vec<(String, Json)> = Vec::new();
    push_entry(&mut entries, "source", Json::Str(s.source.clone()));
    push_entry(&mut entries, "options", encode_options(&s.options));
    proof {
        reveal_strlit("source");
        reveal_strlit("options");
        assert("source"@.len() != "options"@.len());
    }
    Json::Object(entries)
}

/// Options read back from the object they were sent as are the options
/// that were sent: the same arguments and the same filters.
pub proof fn options_round_trip(j: Json, sent: Options, read: Options)
    requires
        encodes_options(j, sent),
        decodes_to_options(j, read),
    ensures
        options_valid(j),
        read.user_arguments@ == sent.user_arguments@,
        read.filters == sent.filters,
{
}

/// The default options, sent and read back, carry the default filter
/// profile and the arguments `-O`.
pub proof fn default_options_round_trip(j: Json, sent: Options, read: Options)
    requires
        sent.is_default(),
        encodes_options(j, sent),
        decodes_to_options(j, read),
    ensures
        options_valid(j),
        read.is_default(),
{
    options_round_trip(j, sent, read);
}

} // verus!
