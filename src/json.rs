//! A JSON document as plain values: the stored form of post payloads.

use vstd::prelude::*;

verus! {

/// A JSON value. Numbers that are not `i64` integers are kept only as
/// `OtherNumber`: nothing here reads their value.
#[derive(Debug)]
pub enum Json {
    Null,
    Bool(bool),
    Int(i64),
    OtherNumber,
    Str(String),
    Arr(Vec<Json>),
    Obj(Vec<(String, Json)>),
}

/// The value under the first entry named `key`.
pub open spec fn lookup(fields: Seq<(String, Json)>, key: Seq<char>) -> Option<Json>
    decreases fields.len(),
{
    if fields.len() == 0 {
        None
    } else if fields[0].0@ == key {
        Some(fields[0].1)
    } else {
        lookup(fields.drop_first(), key)
    }
}

/// Whether `a` holds the text `b`.
pub fn text_eq(a: &String, b: &str) -> (r: bool)
    ensures
        r == (a@ == b@),
{
    let owned = b.to_owned();
    *a == owned
}

/// The value under the first entry named `key`.
pub fn get_field<'a>(fields: &'a Vec<(String, Json)>, key: &str) -> (r: Option<&'a Json>)
    ensures
        match lookup(fields@, key@) {
            Some(v) => r matches Some(x) && *x == v,
            None => r is None,
        },
{
    let mut i: usize = 0;
    assert(fields@.subrange(0, fields@.len() as int) == fields@);
    while i < fields.len()
        invariant
            i <= fields@.len(),
            lookup(fields@, key@) == lookup(fields@.subrange(i as int, fields@.len() as int), key@),
        decreases fields@.len() - i,
    {
        proof {
            let rest = fields@.subrange(i as int, fields@.len() as int);
            assert(rest.drop_first() == fields@.subrange(i + 1, fields@.len() as int));
        }
        if text_eq(&fields[i].0, key) {
            return Some(&fields[i].1);
        }
        i = i + 1;
    }
    None
}

/// A one-entry object `{ key: value }`.
pub fn single_entry(key: &str, value: Json) -> (r: Json)
    ensures
        r matches Json::Obj(f) && f@.len() == 1 && f@[0].0@ == key@ && f@[0].1 == value,
{
    let mut fields: Vec<(String, Json)> = Vec::new();
    fields.push((key.to_owned(), value));
    Json::Obj(fields)
}

/// A JSON string holding `s`.
pub fn text(s: &str) -> (r: Json)
    ensures
        r matches Json::Str(t) && t@ == s@,
{
    Json::Str(s.to_owned())
}

} // verus!
