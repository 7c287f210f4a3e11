use vstd::prelude::*;

use crate::text::same_text;

verus! {

/// A JSON document as plain values: the form in which the library reads a
/// reply's metadata.
#[derive(Debug)]
pub enum Json {
    Null,
    Bool(bool),
    /// A number, in its decimal text form.
    Number(String),
    Text(String),
    Array(Vec<Json>),
    /// An object's members, in order.
    Object(Vec<(String, Json)>),
}

/// The value of the first member named `key`.
pub open spec fn field_of(fields: Seq<(String, Json)>, key: Seq<char>) -> Option<Json>
    decreases fields.len(),
{
    if fields.len() == 0 {
        None
    } else if fields[0].0@ == key {
        Some(fields[0].1)
    } else {
        field_of(fields.drop_first(), key)
    }
}

/// The member `key` of `j`, when `j` is an object that has one.
pub open spec fn member(j: Json, key: Seq<char>) -> Option<Json> {
    match j {
        Json::Object(fields) => field_of(fields@, key),
        _ => None,
    }
}

/// The text of the member `key` of `j`, when there is one and it is a string.
pub open spec fn text_member(j: Json, key: Seq<char>) -> Option<Seq<char>> {
    match member(j, key) {
        Some(Json::Text(s)) => Some(s@),
        _ => None,
    }
}

/// The elements of the member `key` of `j`, when there is one and it is an
/// array.
pub open spec fn array_member(j: Json, key: Seq<char>) -> Option<Seq<Json>> {
    match member(j, key) {
        Some(Json::Array(items)) => Some(items@),
        _ => None,
    }
}

impl Json {
    /// The member `key` of this value, when it is an object that has one.
    pub fn get(&self, key: &str) -> (r: Option<&Json>)
        ensures
            r is None <==> member(*self, key@) is None,
            r matches Some(v) ==> member(*self, key@) == Some(*v),
    {
        match self {
            Json::Object(fields) => {
                let mut i: usize = 0;
                assert(fields@.subrange(0, fields@.len() as int) =~= fields@);
                while i < fields.len()
                    invariant
                        member(*self, key@) == field_of(fields@, key@),
                        i <= fields@.len(),
                        field_of(fields@, key@) == field_of(fields@.subrange(i as int, fields@.len() as int), key@),
                    decreases fields.len() - i,
                {
                    let ghost rest = fields@.subrange(i as int, fields@.len() as int);
                    assert(rest.drop_first() =~= fields@.subrange(i + 1, fields@.len() as int));
                    assert(rest[0] == fields@[i as int]);
                    if same_text(fields[i].0.as_str(), key) {
                        return Some(&fields[i].1);
                    }
                    i += 1;
                }
                None
            },
            _ => None,
        }
    }

    /// The text of the member `key`, when there is one and it is a string.
    pub fn text_member(&self, key: &str) -> (r: Option<String>)
        ensures
            r is None <==> text_member(*self, key@) is None,
            r matches Some(s) ==> text_member(*self, key@) == Some(s@),
    {
        match self.get(key) {
            Some(Json::Text(s)) => Some(s.clone()),
            _ => None,
        }
    }
}

} // verus!
