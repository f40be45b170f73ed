//! A tagged model of the loosely-typed response documents. Numbers are kept
//! as the integers the renderer can read: a signed value when it fits, an
//! unsigned value for anything larger; non-integer numbers carry no readable
//! value and are modelled as `Other`.

use vstd::prelude::*;

verus! {

/// One node of a response document.
pub enum Doc {
    Null,
    Bool(bool),
    /// An integer that fits a signed 64-bit value.
    Int(i64),
    /// An integer above the signed range.
    UInt(u64),
    Text(String),
    Arr(Vec<Doc>),
    Obj(Vec<(String, Doc)>),
    /// A number with no 64-bit integer value.
    Other,
}

/// The signed 64-bit reading of a node, if it has one.
pub open spec fn as_i64_of(d: Doc) -> Option<i64> {
    match d {
        Doc::Int(i) => Some(i),
        _ => None,
    }
}

/// The unsigned 64-bit reading of a node, if it has one: any non-negative
/// integer value.
pub open spec fn as_u64_of(d: Doc) -> Option<u64> {
    match d {
        Doc::Int(i) => if i >= 0 {
            Some(i as u64)
        } else {
            None
        },
        Doc::UInt(u) => Some(u),
        _ => None,
    }
}

/// The value under a key in a field list: the first binding of the key.
pub open spec fn lookup_spec(fields: Seq<(String, Doc)>, key: Seq<char>) -> Option<Doc>
    decreases fields.len(),
{
    if fields.len() == 0 {
        None
    } else if fields[0].0@ == key {
        Some(fields[0].1)
    } else {
        lookup_spec(fields.drop_first(), key)
    }
}

/// The value under a key in a document: defined only on objects.
pub open spec fn get_spec(d: Doc, key: Seq<char>) -> Option<Doc> {
    match d {
        Doc::Obj(fields) => lookup_spec(fields@, key),
        _ => None,
    }
}

proof fn lemma_lookup_after_misses(fields: Seq<(String, Doc)>, key: Seq<char>, i: int)
    requires
        0 <= i <= fields.len(),
        forall|j: int| 0 <= j < i ==> fields[j].0@ != key,
    ensures
        lookup_spec(fields, key) == lookup_spec(fields.skip(i), key),
    decreases i,
{
    if i > 0 {
        assert(fields.len() > 0);
        assert(lookup_spec(fields, key) == lookup_spec(fields.drop_first(), key));
        lemma_lookup_after_misses(fields.drop_first(), key, i - 1);
        assert(fields.drop_first().skip(i - 1) =~= fields.skip(i));
    } else {
        assert(fields.skip(0) =~= fields);
    }
}

impl Doc {
    /// The value under a key, when this node is an object holding one.
    pub fn get<'a>(&'a self, key: &String) -> (r: Option<&'a Doc>)
        ensures
            match r {
                Some(d) => get_spec(*self, key@) == Some(*d),
                None => get_spec(*self, key@) is None,
            },
    {
        match self {
            Doc::Obj(fields) => {
                let n = fields.len();
                let mut i: usize = 0;
                while i < n
                    invariant
                        i <= n,
                        n == fields@.len(),
                        *self is Obj && self->Obj_0 == *fields,
                        forall|j: int| 0 <= j < i ==> fields@[j].0@ != key@,
                    decreases n - i,
                {
                    if fields[i].0 == *key {
                        proof {
                            lemma_lookup_after_misses(fields@, key@, i as int);
                            let sub = fields@.skip(i as int);
                            assert(sub.len() == n - i);
                            assert(sub[0] == fields@[i as int]);
                            assert(lookup_spec(sub, key@) == Some(sub[0].1));
                        }
                        return Some(&fields[i].1);
                    }
                    i += 1;
                }
                proof {
                    lemma_lookup_after_misses(fields@, key@, n as int);
                    assert(fields@.skip(n as int) =~= Seq::<(String, Doc)>::empty());
                }
                None
            },
            _ => None,
        }
    }
}

} // verus!
