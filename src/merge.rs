//! Pairing of base compiler records with their extended fields.
//!
//! A listing with extended fields comes as one array whose objects carry the
//! base fields and the extended ones side by side. It is decoded twice, once
//! per shape, and the two sequences are merged by position.
use vstd::prelude::*;
use crate::decode::{
    additional_fields_valid, compiler_valid, decode_additional_fields_list, decode_compilers,
    decodes_to_additional_fields, decodes_to_compiler, record_error, DecodeError,
};
use crate::json::Json;
use crate::model::{AdditionalFields, Compiler};

verus! {

/// The merge of `compilers` and `fields` by position, stopping at the end of
/// the shorter one.
pub open spec fn merged(compilers: Seq<Compiler>, fields: Seq<AdditionalFields>) -> Seq<Compiler> {
    let n = if compilers.len() <= fields.len() { compilers.len() } else { fields.len() };
    Seq::new(n, |i: int| compilers[i].attached(fields[i]))
}

/// Attaches `fields[i]` to `compilers[i]` for each position held by both.
pub fn merge_additional_fields(compilers: Vec<Compiler>, fields: Vec<AdditionalFields>) -> (r: Vec<
    Compiler,
>)
    ensures
        r@ == merged(compilers@, fields@),
        r@.len() == if compilers@.len() <= fields@.len() {
            compilers@.len()
        } else {
            fields@.len()
        },
        forall|i: int|
            0 <= i < r@.len() ==> (#[trigger] r@[i]).additional_fields == Some(fields@[i]),
        forall|i: int|
            0 <= i < r@.len() ==> (#[trigger] r@[i]).id == compilers@[i].id,
{
    let ghost c0 = compilers@;
    let ghost f0 = fields@;
    let n: usize = if compilers.len() <= fields.len() {
        compilers.len()
    } else {
        fields.len()
    };
    let mut compilers = compilers;
    let mut fields = fields;
    compilers.truncate(n);
    fields.truncate(n);
    // Pairs are taken from the back, so they are first collected in reverse.
    let mut reversed: Vec<Compiler> = Vec::new();
    while compilers.len() > 0
        invariant
            n <= c0.len(),
            n <= f0.len(),
            compilers@.len() == fields@.len(),
            compilers@.len() + reversed@.len() == n,
            compilers@ == c0.subrange(0, compilers@.len() as int),
            fields@ == f0.subrange(0, fields@.len() as int),
            forall|j: int|
                0 <= j < reversed@.len() ==> #[trigger] reversed@[j] == c0[n - 1 - j].attached(
                    f0[n - 1 - j],
                ),
        decreases compilers@.len(),
    {
        let c = compilers.pop().unwrap();
        let f = fields.pop().unwrap();
        reversed.push(c.with_additional_fields(f));
    }
    let mut r: Vec<Compiler> = Vec::new();
    while reversed.len() > 0
        invariant
            n <= c0.len(),
            n <= f0.len(),
            r@.len() + reversed@.len() == n,
            forall|j: int|
                0 <= j < reversed@.len() ==> #[trigger] reversed@[j] == c0[n - 1 - j].attached(
                    f0[n - 1 - j],
                ),
            forall|j: int| 0 <= j < r@.len() ==> #[trigger] r@[j] == c0[j].attached(f0[j]),
        decreases reversed@.len(),
    {
        let c = reversed.pop().unwrap();
        r.push(c);
    }
    assert(r@ =~= merged(c0, f0));
    r
}

/// Merging keeps each record's key: where every base record has a non-empty
/// `id`, every merged record has one too.
pub proof fn merged_ids_non_empty(compilers: Seq<Compiler>, fields: Seq<AdditionalFields>)
    requires
        forall|i: int| 0 <= i < compilers.len() ==> (#[trigger] compilers[i]).id@.len() > 0,
    ensures
        forall|i: int|
            0 <= i < merged(compilers, fields).len() ==> (#[trigger] merged(
                compilers,
                fields,
            )[i]).id@.len() > 0,
{
}

/// Merges the two decodings of one listing. The merge succeeds only where
/// both decodings did; otherwise the first failure, in the order base
/// records then extended fields, is returned and nothing is merged.
pub fn merge_decoded<E>(
    compilers: Result<Vec<Compiler>, E>,
    fields: Result<Vec<AdditionalFields>, E>,
) -> (r: Result<Vec<Compiler>, E>)
    ensures
        r is Ok <==> (compilers is Ok && fields is Ok),
        r is Ok ==> r->Ok_0@ == merged(compilers->Ok_0@, fields->Ok_0@),
        compilers is Err ==> r == compilers,
        compilers is Ok && fields is Err ==> r is Err && r->Err_0 == fields->Err_0,
{
    match compilers {
        Err(e) => Err(e),
        Ok(cs) => match fields {
            Err(e) => Err(e),
            Ok(fs) => Ok(merge_additional_fields(cs, fs)),
        },
    }
}

/// Decodes a listing whose objects carry base and extended fields side by
/// side: the document is decoded once as base records and once as extended
/// fields, and the two are merged by position. Any failure fails the whole
/// listing; the base records are checked first.
pub fn decode_compilers_with_fields(doc: Json) -> (r: Result<Vec<Compiler>, DecodeError>)
    ensures
        !(doc is Array) ==> r == Err::<Vec<Compiler>, DecodeError>(DecodeError::ExpectedArray),
        doc is Array ==> (r is Ok <==> forall|i: int|
            0 <= i < doc->Array_0@.len() ==> compiler_valid(#[trigger] doc->Array_0@[i])
                && additional_fields_valid(doc->Array_0@[i])),
        r is Ok ==> r->Ok_0@.len() == doc->Array_0@.len(),
        r is Ok ==> forall|i: int|
            0 <= i < r->Ok_0@.len() ==> {
                let c = #[trigger] r->Ok_0@[i];
                &&& c.additional_fields is Some
                &&& decodes_to_additional_fields(doc->Array_0@[i], c.additional_fields->0)
                &&& decodes_to_compiler(doc->Array_0@[i], (Compiler { additional_fields: None, ..c }))
            },
        doc is Array && r is Err ==> exists|j: int|
            0 <= j < doc->Array_0@.len() && !(compiler_valid(#[trigger] doc->Array_0@[j])
                && additional_fields_valid(doc->Array_0@[j])) && r->Err_0 == record_error(
                doc->Array_0@[j],
            ),
{
    let compilers = decode_compilers(&doc);
    let fields = decode_additional_fields_list(doc);
    let r = merge_decoded(compilers, fields);
    proof {
        if r is Ok {
            let cs = compilers->Ok_0@;
            let fs = fields->Ok_0@;
            assert forall|i: int| 0 <= i < r->Ok_0@.len() implies decodes_to_compiler(
                doc->Array_0@[i],
                (Compiler { additional_fields: None, ..#[trigger] r->Ok_0@[i] }),
            ) by {
                assert(r->Ok_0@[i] == cs[i].attached(fs[i]));
                assert((Compiler { additional_fields: None, ..r->Ok_0@[i] }) == cs[i]);
            }
        }
    }
    r
}

} // verus!
