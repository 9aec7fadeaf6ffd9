//! The library's own JSON tree model and its navigation functions.
//!
//! Platform API responses reach the resolvers as values of [`Json`].
//! Numbers are held as `i64`; a response number outside that range is
//! treated as absent, which covers every field the resolvers read.
use vstd::prelude::*;
use vstd::string::*;
use crate::text::str_eq;

verus! {

#[derive(Debug)]
pub enum Json {
    Null,
    Bool(bool),
    Int(i64),
    Str(String),
    Arr(Vec<Json>),
    Obj(Vec<(String, Json)>),
}

/// The value of the first field named `key`, if any.
pub open spec fn field_of(fields: Seq<(String, Json)>, key: Seq<char>) -> Option<Json>
    decreases fields.len(),
{
    if fields.len() == 0 {
        None
    } else if fields[0].0@ == key {
        Some(fields[0].1)
    } else {
        field_of(fields.drop_first(), key)
    }
}

/// What member access on an object returns; `None` on any other shape.
pub open spec fn get_spec(j: Json, key: Seq<char>) -> Option<Json> {
    match j {
        Json::Obj(fields) => field_of(fields@, key),
        _ => None,
    }
}

/// What indexing into an array returns; `None` on any other shape.
pub open spec fn at_spec(j: Json, i: int) -> Option<Json> {
    match j {
        Json::Arr(items) => if 0 <= i && i < items@.len() {
            Some(items@[i])
        } else {
            None
        },
        _ => None,
    }
}

/// Total member access, as dynamic JSON indexing behaves: a missing
/// field, or any non-object, reads as `Null`.
pub open spec fn get_j(j: Json, key: Seq<char>) -> Json {
    match get_spec(j, key) {
        Some(v) => v,
        None => Json::Null,
    }
}

/// Total array indexing: out of range, or any non-array, reads as `Null`.
pub open spec fn at_j(j: Json, i: int) -> Json {
    match at_spec(j, i) {
        Some(v) => v,
        None => Json::Null,
    }
}

pub open spec fn str_spec(j: Json) -> Option<Seq<char>> {
    match j {
        Json::Str(s) => Some(s@),
        _ => None,
    }
}

pub open spec fn u64_spec(j: Json) -> Option<u64> {
    match j {
        Json::Int(n) => if n >= 0 {
            Some(n as u64)
        } else {
            None
        },
        _ => None,
    }
}

pub open spec fn bool_spec(j: Json) -> Option<bool> {
    match j {
        Json::Bool(b) => Some(b),
        _ => None,
    }
}

pub open spec fn i64_spec(j: Json) -> Option<i64> {
    match j {
        Json::Int(n) => Some(n),
        _ => None,
    }
}

pub open spec fn arr_spec(j: Json) -> Option<Seq<Json>> {
    match j {
        Json::Arr(items) => Some(items@),
        _ => None,
    }
}

impl Json {
    /// Field lookup on an object; `None` on a missing field or any other shape.
    pub fn get<'a>(&'a self, key: &str) -> (r: Option<&'a Json>)
        ensures
            match get_spec(*self, key@) {
                Some(v) => r matches Some(x) && *x == v,
                None => r is None,
            },
    {
        match self {
            Json::Obj(fields) => {
                proof {
                    assert(*self == Json::Obj(*fields));
                }
                let n = fields.len();
                let mut k: usize = 0;
                proof {
                    assert(fields@.skip(0) =~= fields@);
                }
                while k < n
                    invariant
                        *self == Json::Obj(*fields),
                        n == fields@.len(),
                        0 <= k <= n,
                        field_of(fields@, key@) == field_of(fields@.skip(k as int), key@),
                    decreases n - k,
                {
                    let pair = &fields[k];
                    proof {
                        assert(*pair == fields@[k as int]);
                        assert(fields@.skip(k as int)[0] == fields@[k as int]);
                    }
                    if str_eq(pair.0.as_str(), key) {
                        proof {
                            assert(fields@.skip(k as int)[0].0@ == key@);
                            assert(field_of(fields@.skip(k as int), key@) == Some(
                                fields@[k as int].1,
                            ));
                        }
                        return Some(&pair.1);
                    }
                    proof {
                        assert(fields@.skip(k as int).drop_first() =~= fields@.skip(k as int + 1));
                    }
                    k = k + 1;
                }
                None
            },
            _ => None,
        }
    }

    /// Index into an array; `None` when out of range or on any other shape.
    pub fn at<'a>(&'a self, i: usize) -> (r: Option<&'a Json>)
        ensures
            match at_spec(*self, i as int) {
                Some(v) => r matches Some(x) && *x == v,
                None => r is None,
            },
    {
        match self {
            Json::Arr(items) => {
                if i < items.len() {
                    Some(&items[i])
                } else {
                    None
                }
            },
            _ => None,
        }
    }

    pub fn str_of<'a>(&'a self) -> (r: Option<&'a String>)
        ensures
            match str_spec(*self) {
                Some(v) => r matches Some(s) && s@ == v,
                None => r is None,
            },
    {
        match self {
            Json::Str(s) => Some(s),
            _ => None,
        }
    }

    pub fn u64_of(&self) -> (r: Option<u64>)
        ensures
            r == u64_spec(*self),
    {
        match self {
            Json::Int(n) => {
                if *n >= 0 {
                    Some(*n as u64)
                } else {
                    None
                }
            },
            _ => None,
        }
    }

    pub fn bool_of(&self) -> (r: Option<bool>)
        ensures
            r == bool_spec(*self),
    {
        match self {
            Json::Bool(b) => Some(*b),
            _ => None,
        }
    }

    pub fn i64_of(&self) -> (r: Option<i64>)
        ensures
            r == i64_spec(*self),
    {
        match self {
            Json::Int(n) => Some(*n),
            _ => None,
        }
    }

    pub fn arr_of<'a>(&'a self) -> (r: Option<&'a Vec<Json>>)
        ensures
            match arr_spec(*self) {
                Some(v) => r matches Some(a) && a@ == v,
                None => r is None,
            },
    {
        match self {
            Json::Arr(items) => Some(items),
            _ => None,
        }
    }
}

} // verus!
