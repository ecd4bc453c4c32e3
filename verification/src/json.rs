//! Reading values out of JSON text. The JSON grammar is serde_json's; what a
//! value's text means is decided by the caller.

use vstd::prelude::*;

verus! {

/// The value stored under `key` in the JSON object `text`, as compact JSON
/// text; `None` where the text is no JSON object or has no such key.
pub uninterp spec fn json_member(text: Seq<char>, key: Seq<char>) -> Option<Seq<char>>;

/// The elements of the JSON array `text`, each as compact JSON text; `None`
/// where the text is no JSON array.
pub uninterp spec fn json_items(text: Seq<char>) -> Option<Seq<Seq<char>>>;

/// The content of the JSON string `text`; `None` where the text is no JSON
/// string.
pub uninterp spec fn json_text(text: Seq<char>) -> Option<Seq<char>>;

/// The JSON number `text` as serde_json writes it; `None` where the text is
/// no JSON number.
pub uninterp spec fn json_number_text(text: Seq<char>) -> Option<Seq<char>>;

/// The characters of an optional string.
pub open spec fn opt_view(s: Option<String>) -> Option<Seq<char>> {
    match s {
        Some(t) => Some(t@),
        None => None,
    }
}

/// The characters of each string of a list.
pub open spec fn list_view(list: Seq<String>) -> Seq<Seq<char>> {
    Seq::new(list.len(), |i: int| list[i]@)
}

/// `serde_json::from_str` into a `Value`, then `Value::get` and
/// `Value::to_string`: the member under `key`, written back as JSON text.
/// The result depends on the two texts alone.
#[verifier::external_body]
pub(crate) fn read_member(text: &str, key: &str) -> (r: Option<String>)
    ensures
        opt_view(r) == json_member(text@, key@),
{
    match serde_json::from_str::<serde_json::Value>(text) {
        Ok(serde_json::Value::Object(object)) => match object.get(key) {
            Some(member) => Some(member.to_string()),
            None => None,
        },
        _ => None,
    }
}

/// `serde_json::from_str` into a `Value`: how many elements a JSON array
/// has; `None` where the text is no JSON array. The result depends on the
/// text alone.
#[verifier::external_body]
pub(crate) fn read_count(text: &str) -> (r: Option<usize>)
    ensures
        match r {
            Some(n) => json_items(text@) matches Some(list) && list.len() == n,
            None => json_items(text@) is None,
        },
{
    match serde_json::from_str::<serde_json::Value>(text) {
        Ok(serde_json::Value::Array(items)) => Some(items.len()),
        _ => None,
    }
}

/// `serde_json::from_str` into a `Value`, then `Value::to_string` on one
/// element of an array: the element at `index`, written back as JSON text;
/// `None` where the text is no JSON array or is shorter. The result depends
/// on the text and the index alone.
#[verifier::external_body]
pub(crate) fn read_item(text: &str, index: usize) -> (r: Option<String>)
    ensures
        opt_view(r) == (match json_items(text@) {
            Some(list) => if index < list.len() {
                Some(list[index as int])
            } else {
                None
            },
            None => None,
        }),
{
    match serde_json::from_str::<serde_json::Value>(text) {
        Ok(serde_json::Value::Array(items)) => match items.get(index) {
            Some(item) => Some(item.to_string()),
            None => None,
        },
        _ => None,
    }
}

/// `serde_json::from_str` into a `Value`: the content of a JSON string. The
/// result depends on the text alone.
#[verifier::external_body]
pub(crate) fn read_text(text: &str) -> (r: Option<String>)
    ensures
        opt_view(r) == json_text(text@),
{
    match serde_json::from_str::<serde_json::Value>(text) {
        Ok(serde_json::Value::String(s)) => Some(s),
        _ => None,
    }
}

/// `serde_json::from_str` into a `Value`, then `Number::to_string`: a JSON
/// number in the form serde_json displays it. The result depends on the text
/// alone.
#[verifier::external_body]
pub(crate) fn read_number_text(text: &str) -> (r: Option<String>)
    ensures
        opt_view(r) == json_number_text(text@),
{
    match serde_json::from_str::<serde_json::Value>(text) {
        Ok(serde_json::Value::Number(n)) => Some(n.to_string()),
        _ => None,
    }
}

/// The string stored under `key` in a JSON object.
pub open spec fn json_string(text: Seq<char>, key: Seq<char>) -> Option<Seq<char>> {
    match json_member(text, key) {
        Some(member) => json_text(member),
        None => None,
    }
}

/// The number stored under `key` in a JSON object, as serde_json writes it.
pub open spec fn json_number(text: Seq<char>, key: Seq<char>) -> Option<Seq<char>> {
    match json_member(text, key) {
        Some(member) => json_number_text(member),
        None => None,
    }
}

/// The member under `key` of a JSON object, as JSON text.
pub fn member(text: &str, key: &str) -> (r: Option<String>)
    ensures
        opt_view(r) == json_member(text@, key@),
{
    read_member(text, key)
}

/// The elements of a JSON array, each as JSON text.
pub fn items(text: &str) -> (r: Option<Vec<String>>)
    ensures
        (match r {
            Some(list) => Some(list_view(list@)),
            None => None,
        }) == json_items(text@),
{
    let count: usize = match read_count(text) {
        Some(n) => n,
        None => {
            return None;
        },
    };
    let mut list: Vec<String> = Vec::new();
    let mut i: usize = 0;
    while i < count
        invariant
            i <= count,
            json_items(text@) matches Some(all) && all.len() == count && list.len() == i
                && forall|j: int| 0 <= j < i ==> (#[trigger] list[j])@ == all[j],
        decreases count - i,
    {
        match read_item(text, i) {
            Some(item) => {
                list.push(item);
            },
            None => {
                // an element within the array's length is always there
                list.push(String::new());
            },
        }
        i = i + 1;
    }
    proof {
        assert(list_view(list@) =~= json_items(text@)->0);
    }
    Some(list)
}

/// The content of a JSON string.
pub fn text_value(text: &str) -> (r: Option<String>)
    ensures
        opt_view(r) == json_text(text@),
{
    read_text(text)
}

/// A JSON number as decimal text.
pub fn number_value(text: &str) -> (r: Option<String>)
    ensures
        opt_view(r) == json_number_text(text@),
{
    read_number_text(text)
}

/// The string under `key` of a JSON object.
pub fn string_field(text: &str, key: &str) -> (r: Option<String>)
    ensures
        opt_view(r) == json_string(text@, key@),
{
    match read_member(text, key) {
        Some(m) => read_text(m.as_str()),
        None => None,
    }
}

/// The number under `key` of a JSON object, as decimal text.
pub fn number_field(text: &str, key: &str) -> (r: Option<String>)
    ensures
        opt_view(r) == json_number(text@, key@),
{
    match read_member(text, key) {
        Some(m) => read_number_text(m.as_str()),
        None => None,
    }
}

} // verus!
