//! The generic document tree this crate validates: an immutable value of
//! maps, sequences, strings, numbers, booleans and null, produced by an
//! outside parser and handed in as plain data. Lookups tolerate absent keys
//! by answering the null node, so validators can probe optional sections
//! without erroring.

use vstd::prelude::*;
use crate::strutil::str_eq;

verus! {

/// One node of a parsed workflow or action document.
#[derive(Debug)]
pub enum DocNode {
    Null,
    Bool(bool),
    Int(i64),
    Str(String),
    Arr(Vec<DocNode>),
    Obj(Vec<(String, DocNode)>),
}

/// The value bound to `key` in an object's entry list: the first entry with
/// that key wins, and a missing key yields `None`.
pub open spec fn entries_lookup(entries: Seq<(String, DocNode)>, key: Seq<char>) -> Option<
    DocNode,
>
    decreases entries.len(),
{
    if entries.len() == 0 {
        None
    } else if entries[0].0@ == key {
        Some(entries[0].1)
    } else {
        entries_lookup(entries.drop_first(), key)
    }
}

/// Indexing a node by a string key: objects answer the bound value or null
/// for a missing key; every other node answers null.
pub open spec fn spec_get(node: DocNode, key: Seq<char>) -> DocNode {
    match node {
        DocNode::Obj(entries) => match entries_lookup(entries@, key) {
            Some(v) => v,
            None => DocNode::Null,
        },
        _ => DocNode::Null,
    }
}

impl DocNode {
    /// Indexes the node by a string key. `None` stands for the null node: it
    /// is answered when the key is absent or the node is not an object.
    #[verifier::loop_isolation(false)]
    pub fn get<'a>(&'a self, key: &str) -> (r: Option<&'a DocNode>)
        ensures
            match r {
                Some(v) => *v == spec_get(*self, key@),
                None => spec_get(*self, key@) == DocNode::Null,
            },
    {
        match self {
            DocNode::Obj(entries) => {
                let n = entries.len();
                let mut i: usize = 0;
                proof {
                    assert(entries@.skip(0) =~= entries@);
                }
                while i < n
                    invariant
                        i <= n,
                        n == entries@.len(),
                        entries_lookup(entries@, key@) == entries_lookup(
                            entries@.skip(i as int),
                            key@,
                        ),
                    decreases n - i,
                {
                    proof {
                        assert(entries@.skip(i as int)[0] == entries@[i as int]);
                        assert(entries@.skip(i as int).drop_first() =~= entries@.skip(
                            i as int + 1,
                        ));
                    }
                    if str_eq(entries[i].0.as_str(), key) {
                        return Some(&entries[i].1);
                    }
                    i = i + 1;
                }
                proof {
                    assert(entries@.skip(n as int) =~= Seq::<(String, DocNode)>::empty());
                }
                None
            },
            _ => None,
        }
    }

}

/// Whether an object's entry list binds `key`.
pub open spec fn entries_has_key(entries: Seq<(String, DocNode)>, key: Seq<char>) -> bool {
    exists|i: int| 0 <= i < entries.len() && entries[i].0@ == key
}

/// Scans an entry list for `key`.
#[verifier::loop_isolation(false)]
pub fn entries_contain_key(entries: &Vec<(String, DocNode)>, key: &str) -> (r: bool)
    ensures
        r == entries_has_key(entries@, key@),
{
    let n = entries.len();
    let mut i: usize = 0;
    while i < n
        invariant
            i <= n,
            n == entries@.len(),
            forall|j: int| 0 <= j < i ==> entries@[j].0@ != key@,
        decreases n - i,
    {
        if str_eq(entries[i].0.as_str(), key) {
            return true;
        }
        i = i + 1;
    }
    false
}

} // verus!
