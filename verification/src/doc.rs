//! The structured-document model that boards and help articles are
//! loaded from: a tree of plain values, with the lookup rules that the
//! loaders share.
//!
//! A document object is a sequence of key/value entries read in order;
//! for a scalar attribute the last entry that provides a usable value
//! wins, and entries of the wrong shape leave the attribute as it was.

use vstd::prelude::*;
use crate::strutil::str_eq;

verus! {

/// Why a document was rejected.
#[derive(Clone, Copy, PartialEq, Eq, Structural, Debug)]
pub enum DocError {
    /// The node is an object but does not carry the required type tag.
    InvalidData,
    /// The node is not an object at all.
    InvalidInput,
}

impl DocError {
    /// The message that callers surface for this error.
    pub fn message(&self) -> (r: &'static str)
        ensures
            *self == DocError::InvalidData ==> r@ == "Input data is invalid!"@,
            *self == DocError::InvalidInput ==> r@ == "Input must be map!"@,
    {
        match self {
            DocError::InvalidData => "Input data is invalid!",
            DocError::InvalidInput => "Input must be map!",
        }
    }
}

/// One node of a structured document.
pub enum DocValue {
    /// An explicit null.
    Null,
    /// A boolean.
    Bool(bool),
    /// A number that is an unsigned integer.
    UInt(u64),
    /// A string.
    Str(String),
    /// An ordered list of values.
    Array(Vec<DocValue>),
    /// An object: key/value entries in document order.
    Object(Vec<(String, DocValue)>),
    /// A number of any other shape; no loader reads one.
    OtherNum,
}

/// The last entry of `entries` under `key` whose value is a string,
/// if any.
pub open spec fn lookup_str(entries: Seq<(String, DocValue)>, key: Seq<char>) -> Option<
    Seq<char>,
>
    decreases entries.len(),
{
    if entries.len() == 0 {
        None
    } else if entries.last().0@ == key && entries.last().1 is Str {
        Some(entries.last().1->Str_0@)
    } else {
        lookup_str(entries.drop_last(), key)
    }
}

/// The last entry of `entries` under `key` whose value is an unsigned
/// integer, if any.
pub open spec fn lookup_uint(entries: Seq<(String, DocValue)>, key: Seq<char>) -> Option<u64>
    decreases entries.len(),
{
    if entries.len() == 0 {
        None
    } else if entries.last().0@ == key && entries.last().1 is UInt {
        Some(entries.last().1->UInt_0)
    } else {
        lookup_uint(entries.drop_last(), key)
    }
}

/// The last entry of `entries` under `outer` that is an object holding
/// a usable unsigned integer under `dim`, if any: how a dimension is
/// read out of a `size` or `position` attribute.
pub open spec fn lookup_dim(
    entries: Seq<(String, DocValue)>,
    outer: Seq<char>,
    dim: Seq<char>,
) -> Option<u64>
    decreases entries.len(),
{
    if entries.len() == 0 {
        None
    } else if entries.last().0@ == outer && entries.last().1 is Object && lookup_uint(
        entries.last().1->Object_0@,
        dim,
    ) is Some {
        lookup_uint(entries.last().1->Object_0@, dim)
    } else {
        lookup_dim(entries.drop_last(), outer, dim)
    }
}

/// True iff some entry tags the object with `type` equal to `tag`.
pub open spec fn has_type_tag(entries: Seq<(String, DocValue)>, tag: Seq<char>) -> bool {
    exists|i: int|
        0 <= i < entries.len() && (#[trigger] entries[i]).0@ == "type"@ && entries[i].1 is Str
            && entries[i].1->Str_0@ == tag
}

/// Find the last string value under `key`.
pub fn get_str<'a>(entries: &'a Vec<(String, DocValue)>, key: &str) -> (r: Option<&'a String>)
    ensures
        match r {
            Some(s) => lookup_str(entries@, key@) == Some(s@),
            None => lookup_str(entries@, key@) is None,
        },
{
    let mut i: usize = entries.len();
    proof {
        assert(entries@.take(i as int) =~= entries@);
    }
    while i > 0
        invariant
            i <= entries@.len(),
            lookup_str(entries@, key@) == lookup_str(entries@.take(i as int), key@),
        decreases i,
    {
        i = i - 1;
        proof {
            assert(entries@.take(i as int + 1).last() == entries@[i as int]);
            assert(entries@.take(i as int + 1).drop_last() =~= entries@.take(i as int));
        }
        if str_eq(entries[i].0.as_str(), key) {
            match &entries[i].1 {
                DocValue::Str(s) => {
                    return Some(s);
                },
                _ => {},
            }
        }
    }
    proof {
        assert(entries@.take(0) =~= Seq::<(String, DocValue)>::empty());
    }
    None
}

/// Find the last unsigned-integer value under `key`.
pub fn get_uint(entries: &Vec<(String, DocValue)>, key: &str) -> (r: Option<u64>)
    ensures
        r == lookup_uint(entries@, key@),
{
    let mut i: usize = entries.len();
    proof {
        assert(entries@.take(i as int) =~= entries@);
    }
    while i > 0
        invariant
            i <= entries@.len(),
            lookup_uint(entries@, key@) == lookup_uint(entries@.take(i as int), key@),
        decreases i,
    {
        i = i - 1;
        proof {
            assert(entries@.take(i as int + 1).last() == entries@[i as int]);
            assert(entries@.take(i as int + 1).drop_last() =~= entries@.take(i as int));
        }
        if str_eq(entries[i].0.as_str(), key) {
            match &entries[i].1 {
                DocValue::UInt(u) => {
                    return Some(*u);
                },
                _ => {},
            }
        }
    }
    proof {
        assert(entries@.take(0) =~= Seq::<(String, DocValue)>::empty());
    }
    None
}

/// Find the last `outer` object holding a usable dimension `dim`.
pub fn get_dim(entries: &Vec<(String, DocValue)>, outer: &str, dim: &str) -> (r: Option<u64>)
    ensures
        r == lookup_dim(entries@, outer@, dim@),
{
    let mut i: usize = entries.len();
    proof {
        assert(entries@.take(i as int) =~= entries@);
    }
    while i > 0
        invariant
            i <= entries@.len(),
            lookup_dim(entries@, outer@, dim@) == lookup_dim(entries@.take(i as int), outer@, dim@),
        decreases i,
    {
        i = i - 1;
        proof {
            assert(entries@.take(i as int + 1).last() == entries@[i as int]);
            assert(entries@.take(i as int + 1).drop_last() =~= entries@.take(i as int));
        }
        if str_eq(entries[i].0.as_str(), outer) {
            match &entries[i].1 {
                DocValue::Object(inner) => {
                    match get_uint(inner, dim) {
                        Some(u) => {
                            return Some(u);
                        },
                        None => {},
                    }
                },
                _ => {},
            }
        }
    }
    proof {
        assert(entries@.take(0) =~= Seq::<(String, DocValue)>::empty());
    }
    None
}

/// Decide whether the object carries the given `type` tag.
pub fn has_tag(entries: &Vec<(String, DocValue)>, tag: &str) -> (r: bool)
    ensures
        r == has_type_tag(entries@, tag@),
{
    let n = entries.len();
    let mut i: usize = 0;
    while i < n
        invariant
            i <= n,
            n == entries@.len(),
            forall|j: int|
                0 <= j < i ==> !((#[trigger] entries@[j]).0@ == "type"@ && entries@[j].1 is Str
                    && entries@[j].1->Str_0@ == tag@),
        decreases n - i,
    {
        if str_eq(entries[i].0.as_str(), "type") {
            match &entries[i].1 {
                DocValue::Str(s) => {
                    if str_eq(s.as_str(), tag) {
                        return true;
                    }
                },
                _ => {},
            }
        }
        i = i + 1;
    }
    false
}

} // verus!
