//! The library's model of a decoded JSON document.
//!
//! The surrounding program decodes an HTTP body with its JSON library and
//! hands the document over in this type; every value the normalizer reads is
//! then a plain value that contracts can speak about.

use vstd::prelude::*;

verus! {

/// A decoded JSON document.
///
/// A number that fits an unsigned 64-bit integer is `Num`; any other number
/// (negative, fractional, or too large) is `NumOther`, since no consumer in
/// this crate reads such a value.  An object keeps its members in order.
#[derive(Debug, PartialEq)]
pub enum Json {
    Null,
    Bool(bool),
    Num(u64),
    NumOther,
    Str(String),
    Arr(Vec<Json>),
    Obj(Vec<(String, Json)>),
}

/// Structural equality of two documents, comparing strings by their
/// character sequences.
pub open spec fn json_eq(a: Json, b: Json) -> bool
    decreases a,
{
    match (a, b) {
        (Json::Null, Json::Null) => true,
        (Json::Bool(x), Json::Bool(y)) => x == y,
        (Json::Num(x), Json::Num(y)) => x == y,
        (Json::NumOther, Json::NumOther) => true,
        (Json::Str(x), Json::Str(y)) => x@ == y@,
        (Json::Arr(x), Json::Arr(y)) => x@.len() == y@.len() && (forall|i: int|
            0 <= i < x@.len() ==> json_eq(x@[i], y@[i])),
        (Json::Obj(x), Json::Obj(y)) => x@.len() == y@.len() && (forall|i: int|
            0 <= i < x@.len() ==> x@[i].0@ == y@[i].0@ && json_eq(x@[i].1, y@[i].1)),
        _ => false,
    }
}

/// The value under the first member named `key`, if any.
pub open spec fn lookup(fields: Seq<(String, Json)>, key: Seq<char>) -> Option<Json>
    decreases fields.len(),
{
    if fields.len() == 0 {
        None
    } else if fields[0].0@ == key {
        Some(fields[0].1)
    } else {
        lookup(fields.drop_first(), key)
    }
}

impl Json {
    /// A deep, structurally equal copy.
    #[verifier::loop_isolation(false)]
    pub fn duplicate(&self) -> (r: Json)
        ensures
            json_eq(*self, r),
        decreases *self,
    {
        match self {
            Json::Null => Json::Null,
            Json::Bool(b) => Json::Bool(*b),
            Json::Num(n) => Json::Num(*n),
            Json::NumOther => Json::NumOther,
            Json::Str(s) => Json::Str(s.clone()),
            Json::Arr(items) => {
                let mut out: Vec<Json> = Vec::new();
                let mut i: usize = 0;
                while i < items.len()
                    invariant
                        i <= items@.len(),
                        out@.len() == i,
                        forall|j: int| 0 <= j < i ==> json_eq(items@[j], out@[j]),
                    decreases items@.len() - i,
                {
                    let c = items[i].duplicate();
                    out.push(c);
                    i = i + 1;
                }
                Json::Arr(out)
            },
            Json::Obj(fields) => {
                let mut out: Vec<(String, Json)> = Vec::new();
                let mut i: usize = 0;
                while i < fields.len()
                    invariant
                        i <= fields@.len(),
                        out@.len() == i,
                        forall|j: int|
                            0 <= j < i ==> out@[j].0@ == fields@[j].0@ && json_eq(
                                fields@[j].1,
                                out@[j].1,
                            ),
                    decreases fields@.len() - i,
                {
                    let k = fields[i].0.clone();
                    let v = fields[i].1.duplicate();
                    out.push((k, v));
                    i = i + 1;
                }
                Json::Obj(out)
            },
        }
    }

    /// Borrows the value under the first object member named `key`, exactly
    /// as [`lookup`] says.
    #[verifier::loop_isolation(false)]
    pub fn get<'a>(&'a self, key: &str) -> (r: Option<&'a Json>)
        ensures
            match r {
                Some(v) => *self is Obj && lookup(self->Obj_0@, key@) == Some(*v),
                None => *self is Obj ==> lookup(self->Obj_0@, key@) is None,
            },
    {
        match self {
            Json::Obj(fields) => {
                proof {
                    assert(fields@.subrange(0, fields@.len() as int) =~= fields@);
                }
                let mut i: usize = 0;
                while i < fields.len()
                    invariant
                        i <= fields@.len(),
                        lookup(fields@, key@) == lookup(
                            fields@.subrange(i as int, fields@.len() as int),
                            key@,
                        ),
                    decreases fields@.len() - i,
                {
                    if crate::text::str_eq(fields[i].0.as_str(), key) {
                        proof {
                            let sub = fields@.subrange(i as int, fields@.len() as int);
                            assert(sub[0] == fields@[i as int]);
                            assert(lookup(sub, key@) == Some(fields@[i as int].1));
                        }
                        let v = &fields[i].1;
                        assert(*v == fields@[i as int].1);
                        return Some(v);
                    }
                    proof {
                        assert(fields@.subrange(i as int, fields@.len() as int).drop_first()
                            =~= fields@.subrange(i as int + 1, fields@.len() as int));
                    }
                    i = i + 1;
                }
                None
            },
            _ => None,
        }
    }
}

} // verus!
