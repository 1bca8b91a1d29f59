//! A JSON value as the YouTube Data API answers, and the lookups the bot
//! makes in it.

use vstd::prelude::*;

use crate::text::str_eq;

verus! {

/// A JSON value. An object holds its members in order, each key once; a
/// number is held as the text that stands for it.
#[derive(Debug)]
pub enum Json {
    Null,
    Bool(bool),
    Number(String),
    Str(String),
    Array(Vec<Json>),
    Object(Vec<(String, Json)>),
}

/// The value of the first member named `key`.
pub open spec fn member(members: Seq<(String, Json)>, key: Seq<char>) -> Option<Json>
    decreases members.len(),
{
    if members.len() == 0 {
        None
    } else if members[0].0@ == key {
        Some(members[0].1)
    } else {
        member(members.drop_first(), key)
    }
}

/// The member `key` of an object; `None` for a missing member or a value that
/// is not an object.
pub open spec fn field(value: Option<Json>, key: Seq<char>) -> Option<Json> {
    match value {
        Some(Json::Object(members)) => member(members@, key),
        _ => None,
    }
}

/// The element at `index` of an array; `None` out of bounds or for a value
/// that is not an array.
pub open spec fn element(value: Option<Json>, index: int) -> Option<Json> {
    match value {
        Some(Json::Array(items)) => if 0 <= index < items@.len() {
            Some(items@[index])
        } else {
            None
        },
        _ => None,
    }
}

/// The text of a string value.
pub open spec fn text_of(value: Option<Json>) -> Option<Seq<char>> {
    match value {
        Some(Json::Str(s)) => Some(s@),
        _ => None,
    }
}

/// The elements of an array value.
pub open spec fn elements_of(value: Option<Json>) -> Option<Seq<Json>> {
    match value {
        Some(Json::Array(items)) => Some(items@),
        _ => None,
    }
}

/// Looks up the member `key` of an object value.
pub fn get_field<'a>(value: &'a Json, key: &str) -> (r: Option<&'a Json>)
    ensures
        match field(Some(*value), key@) {
            Some(v) => r matches Some(found) && *found == v,
            None => r is None,
        },
{
    match value {
        Json::Object(members) => {
            let mut k: usize = 0;
            assert(members@.skip(0) =~= members@);
            while k < members.len()
                invariant
                    field(Some(*value), key@) == member(members@, key@),
                    k <= members@.len(),
                    member(members@, key@) == member(members@.skip(k as int), key@),
                decreases members@.len() - k,
            {
                assert(members@.skip(k as int)[0] == members@[k as int]);
                assert(members@.skip(k as int).drop_first() =~= members@.skip(k + 1));
                if str_eq(members[k].0.as_str(), key) {
                    return Some(&members[k].1);
                }
                k = k + 1;
            }
            assert(members@.skip(k as int) =~= Seq::<(String, Json)>::empty());
            None
        },
        _ => None,
    }
}

/// The element at `index` of an array value.
pub fn get_element(value: &Json, index: usize) -> (r: Option<&Json>)
    ensures
        match element(Some(*value), index as int) {
            Some(v) => r matches Some(found) && *found == v,
            None => r is None,
        },
{
    match value {
        Json::Array(items) => if index < items.len() {
            Some(&items[index])
        } else {
            None
        },
        _ => None,
    }
}

/// The text of a string value.
pub fn as_text(value: &Json) -> (r: Option<&String>)
    ensures
        match text_of(Some(*value)) {
            Some(t) => r matches Some(found) && found@ == t,
            None => r is None,
        },
{
    match value {
        Json::Str(s) => Some(s),
        _ => None,
    }
}

/// The elements of an array value.
pub fn as_elements(value: &Json) -> (r: Option<&Vec<Json>>)
    ensures
        match elements_of(Some(*value)) {
            Some(items) => r matches Some(found) && found@ == items,
            None => r is None,
        },
{
    match value {
        Json::Array(items) => Some(items),
        _ => None,
    }
}

} // verus!
