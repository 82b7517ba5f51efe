//! JSON values: the tree that the service's records are decoded from.
use vstd::prelude::*;
use vstd::string::*;

verus! {

/// A parsed JSON document. Numbers are kept as the parser read them: a
/// non-negative integer, a negative integer, or any other number as the
/// text of its `f64` value.
#[derive(Debug, PartialEq)]
pub enum Json {
    Null,
    Bool(bool),
    PosInt(u64),
    NegInt(i64),
    Float(String),
    Str(String),
    Array(Vec<Json>),
    Object(Vec<(String, Json)>),
}

/// The value under `key` among `entries`; where a key repeats, the last
/// one counts.
pub open spec fn lookup(entries: Seq<(String, Json)>, key: Seq<char>) -> Option<Json>
    decreases entries.len(),
{
    if entries.len() == 0 {
        None
    } else if entries.last().0@ == key {
        Some(entries.last().1)
    } else {
        lookup(entries.drop_last(), key)
    }
}

/// Removing an entry leaves the value of every other key as it was.
pub proof fn lemma_lookup_remove(
    entries: Seq<(String, Json)>,
    i: int,
    key: Seq<char>,
    other: Seq<char>,
)
    requires
        0 <= i < entries.len(),
        entries[i].0@ == key,
        other != key,
    ensures
        lookup(entries.remove(i), other) == lookup(entries, other),
    decreases entries.len(),
{
    if i == entries.len() - 1 {
        assert(entries.remove(i) =~= entries.drop_last());
    } else {
        assert(entries.remove(i).drop_last() =~= entries.drop_last().remove(i));
        assert(entries.remove(i).last() == entries.last());
        if entries.last().0@ != other {
            lemma_lookup_remove(entries.drop_last(), i, key, other);
        }
    }
}

/// The index of the entry that gives the value of `key`, if any.
fn position(entries: &Vec<(String, Json)>, key: &str) -> (r: Option<usize>)
    ensures
        r is Some ==> r->0 < entries@.len() && entries@[r->0 as int].0@ == key@ && lookup(
            entries@,
            key@,
        ) == Some(entries@[r->0 as int].1),
        r is None ==> lookup(entries@, key@) is None,
{
    let k = String::from_str(key);
    let mut i: usize = entries.len();
    assert(entries@.subrange(0, i as int) =~= entries@);
    while i > 0
        invariant
            i <= entries@.len(),
            k@ == key@,
            lookup(entries@, key@) == lookup(entries@.subrange(0, i as int), key@),
        decreases i,
    {
        let ghost prefix = entries@.subrange(0, i as int);
        assert(prefix.drop_last() =~= entries@.subrange(0, i - 1));
        i = i - 1;
        assert(prefix.last() == entries@[i as int]);
        if entries[i].0 == k {
            return Some(i);
        }
    }
    None
}

/// Removes the entry that gives the value of `key` and returns that value;
/// the values of all other keys stay as they were.
pub fn take_member(entries: &mut Vec<(String, Json)>, key: &str) -> (r: Option<Json>)
    ensures
        r == lookup(old(entries)@, key@),
        forall|k: Seq<char>|
            k != key@ ==> #[trigger] lookup(final(entries)@, k) == lookup(old(entries)@, k),
{
    match position(entries, key) {
        Some(i) => {
            let ghost before = entries@;
            let (_, v) = entries.remove(i);
            proof {
                assert forall|k: Seq<char>| k != key@ implies #[trigger] lookup(entries@, k)
                    == lookup(before, k) by {
                    lemma_lookup_remove(before, i as int, key@, k);
                }
            }
            Some(v)
        },
        None => None,
    }
}

impl Json {
    /// The member `key` of an object; `None` for any other value.
    pub open spec fn member(self, key: Seq<char>) -> Option<Json> {
        match self {
            Json::Object(entries) => lookup(entries@, key),
            _ => None,
        }
    }

    /// Looks up the member `key` of an object.
    pub fn get(&self, key: &str) -> (r: Option<&Json>)
        ensures
            r is Some ==> self.member(key@) == Some(*r->0),
            r is None ==> self.member(key@) is None,
    {
        match self {
            Json::Object(entries) => {
                let k = String::from_str(key);
                assert(self.member(key@) == lookup(entries@, key@));
                let mut i: usize = entries.len();
                assert(entries@.subrange(0, i as int) =~= entries@);
                while i > 0
                    invariant
                        i <= entries@.len(),
                        k@ == key@,
                        self.member(key@) == lookup(entries@, key@),
                        lookup(entries@, key@) == lookup(entries@.subrange(0, i as int), key@),
                    decreases i,
                {
                    let ghost prefix = entries@.subrange(0, i as int);
                    assert(prefix.drop_last() =~= entries@.subrange(0, i - 1));
                    i = i - 1;
                    assert(prefix.last() == entries@[i as int]);
                    if entries[i].0 == k {
                        assert(lookup(prefix, key@) == Some(entries@[i as int].1));
                        let v = &entries[i].1;
                        assert(*v == entries@[i as int].1);
                        return Some(v);
                    }
                }
                None
            },
            _ => None,
        }
    }
}

} // verus!
