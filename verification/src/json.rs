//! JSON documents as the rest of the crate sees them, and the two questions
//! it asks of one: which value an object holds under a name, and whether a
//! list is a list of strings.

use vstd::prelude::*;
use vstd::string::*;
use crate::sequences::{lemma_first_absent, lemma_first_found, spec_all, spec_first};

verus! {

/// A JSON document, as far as this crate looks into one. Numbers keep no
/// value: nothing here reads them. The members of an object stand in a
/// list, and a name is looked up from its front.
#[derive(Debug, PartialEq, Eq)]
pub enum JsonValue {
    Null,
    Boolean(bool),
    Number,
    Text(String),
    List(Vec<JsonValue>),
    Object(Vec<(String, JsonValue)>),
}

/// The text of a JSON string, `None` for any other value.
pub open spec fn spec_text(value: JsonValue) -> Option<Seq<char>> {
    match value {
        JsonValue::Text(s) => Some(s@),
        _ => None,
    }
}

/// The value of the first member called `key`.
pub open spec fn spec_member(members: Seq<(String, JsonValue)>, key: Seq<char>) -> Option<
    JsonValue,
> {
    match spec_first(members, |member: (String, JsonValue)| member.0@ == key) {
        Some(i) => Some(members[i].1),
        None => None,
    }
}

/// Looks up the first member called `key`.
pub fn member<'a>(members: &'a Vec<(String, JsonValue)>, key: &str) -> (r: Option<&'a JsonValue>)
    ensures
        match r {
            Some(value) => spec_member(members@, key@) == Some(*value),
            None => spec_member(members@, key@) is None,
        },
{
    let wanted = key.to_owned();
    let ghost named = |member: (String, JsonValue)| member.0@ == key@;
    let mut i: usize = 0;
    while i < members.len()
        invariant
            i <= members.len(),
            wanted@ == key@,
            named == |member: (String, JsonValue)| member.0@ == key@,
            forall|j: int| 0 <= j < i ==> !#[trigger] named(members@[j]),
        decreases members.len() - i,
    {
        if members[i].0 == wanted {
            proof {
                lemma_first_found(members@, named, i as int);
            }
            return Some(&members[i].1);
        }
        i += 1;
    }
    proof {
        lemma_first_absent(members@, named);
    }
    None
}

/// Reads a list of JSON strings.
pub fn texts(items: &Vec<JsonValue>) -> (r: Option<Vec<String>>)
    ensures
        r.deep_view() == spec_all(items@, |item: JsonValue| spec_text(item)),
{
    let ghost text = |item: JsonValue| spec_text(item);
    let mut out: Vec<String> = Vec::new();
    let mut i: usize = 0;
    while i < items.len()
        invariant
            i <= items.len(),
            out.len() == i,
            text == |item: JsonValue| spec_text(item),
            forall|j: int| 0 <= j < i ==> #[trigger] text(items@[j]) == Some(out@[j]@),
        decreases items.len() - i,
    {
        match &items[i] {
            JsonValue::Text(s) => {
                out.push(s.clone());
            },
            _ => {
                assert(text(items@[i as int]) is None);
                return None;
            },
        }
        i += 1;
    }
    assert(out.deep_view() =~= Seq::new(items@.len(), |i: int| text(items@[i])->0));
    Some(out)
}

} // verus!
