//! A JSON document as a tree of plain values.
//!
//! Frames travel as JSON text; turning text into this tree and back is done
//! with a JSON library by the embedding program. Everything the protocol reads
//! out of a frame is read from this tree.
use vstd::prelude::*;

verus! {

/// One JSON value.
#[derive(Debug, PartialEq)]
pub enum Json {
    Null,
    Bool(bool),
    /// A number that is a non-negative integer fitting in 64 bits.
    UInt(u64),
    /// Any other number (negative or fractional), in its textual form.
    NumberText(String),
    Str(String),
    Array(Vec<Json>),
    /// Members in document order; a key that occurs twice is read at its first place.
    Object(Vec<(String, Json)>),
}

/// The value stored under `key` in an object's members: that of the first member with that key.
pub open spec fn member(ms: Seq<(String, Json)>, key: Seq<char>) -> Option<Json>
    decreases ms.len(),
{
    if ms.len() == 0 {
        None
    } else if ms[0].0@ == key {
        Some(ms[0].1)
    } else {
        member(ms.drop_first(), key)
    }
}

/// Members that come before the first one with `key` do not change the lookup.
pub proof fn lemma_member_skip(ms: Seq<(String, Json)>, key: Seq<char>, i: int)
    requires
        0 <= i <= ms.len(),
        forall|k: int| 0 <= k < i ==> ms[k].0@ != key,
    ensures
        member(ms, key) == member(ms.subrange(i, ms.len() as int), key),
    decreases i,
{
    if i > 0 {
        lemma_member_skip(ms.drop_first(), key, i - 1);
        assert(ms.drop_first().subrange(i - 1, ms.len() - 1) =~= ms.subrange(i, ms.len() as int));
    } else {
        assert(ms.subrange(0, ms.len() as int) =~= ms);
    }
}

/// Position of the member that `member` reads for `key`, if there is one.
pub fn find_member(ms: &Vec<(String, Json)>, key: &str) -> (r: Option<usize>)
    ensures
        match r {
            Some(i) => i < ms.len() && member(ms@, key@) == Some(ms@[i as int].1),
            None => member(ms@, key@) is None,
        },
{
    let k = String::from_str(key);
    let mut i: usize = 0;
    while i < ms.len()
        invariant
            0 <= i <= ms.len(),
            k@ == key@,
            forall|j: int| 0 <= j < i ==> ms@[j].0@ != key@,
        decreases ms.len() - i,
    {
        if ms[i].0 == k {
            proof {
                lemma_member_skip(ms@, key@, i as int);
            }
            return Some(i);
        }
        i = i + 1;
    }
    proof {
        lemma_member_skip(ms@, key@, i as int);
    }
    None
}

} // verus!
