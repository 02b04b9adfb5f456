//! The calls into `serde_json` that read and write the JSON texts the queue stores: job
//! payloads built by the command line and worker records.

use crate::jconfig::opt_view;
use crate::ops::pairs_view;
use crate::text::strings_view;
use vstd::prelude::*;

verus! {

/// `text` is JSON: `serde_json::from_str::<serde_json::Value>` accepts it.
pub uninterp spec fn json_parses(text: Seq<char>) -> bool;

/// The text that `serde_json` writes for a JSON object whose members are, in this order of
/// insertion, the strings `texts`, the numbers `numbers`, the arrays of strings `lists`
/// and the values parsed from the JSON texts `raws` (a later member replacing an earlier
/// one of the same name).
pub uninterp spec fn json_object_text(
    texts: Seq<(Seq<char>, Seq<char>)>,
    numbers: Seq<(Seq<char>, u64)>,
    lists: Seq<(Seq<char>, Seq<Seq<char>>)>,
    raws: Seq<(Seq<char>, Seq<char>)>,
) -> Seq<char>;

/// The number held by member `name` of the JSON object in `text`, as `Value::as_u64`
/// reads it; `None` where `text` is not JSON, has no such member, or the member is not a
/// number that fits a `u64`.
pub uninterp spec fn json_u64_field(text: Seq<char>, name: Seq<char>) -> Option<u64>;

/// The items of the array held by member `name` of the JSON object in `text`, each the
/// string it holds or `None` where it is not a string; `None` where `text` is not JSON, has
/// no such member, or the member is not an array.
pub uninterp spec fn json_string_items(text: Seq<char>, name: Seq<char>) -> Option<
    Seq<Option<Seq<char>>>,
>;

/// Every text of `raws` is JSON.
pub open spec fn raws_parse(raws: Seq<(Seq<char>, Seq<char>)>) -> bool {
    forall|i: int| 0 <= i < raws.len() ==> #[trigger] json_parses(raws[i].1)
}

/// The name-and-number pairs of a vector.
pub open spec fn numbers_view(v: Seq<(String, u64)>) -> Seq<(Seq<char>, u64)> {
    v.map_values(|p: (String, u64)| (p.0@, p.1))
}

/// The name-and-strings pairs of a vector.
pub open spec fn lists_view(v: Seq<(String, Vec<String>)>) -> Seq<(Seq<char>, Seq<Seq<char>>)> {
    v.map_values(|p: (String, Vec<String>)| (p.0@, strings_view(p.1@)))
}

/// Calls `serde_json::from_str::<serde_json::Value>`. Trusted: the result is
/// `json_parses(text)`, whether it returned `Ok`.
#[verifier::external_body]
pub(crate) fn parses_as_json(text: &str) -> (r: bool)
    ensures
        r == json_parses(text@),
{
    serde_json::from_str::<serde_json::Value>(text).is_ok()
}

/// Builds a `serde_json::Map` by `insert`, from the strings, numbers and string arrays
/// given, then from the values that `serde_json::from_str` parses from `raws`, and writes
/// it with `Value::to_string`. Trusted: the result is present exactly where every text of
/// `raws` is JSON (inserting and writing never fail), and its text is then
/// `json_object_text` of the members.
#[verifier::external_body]
pub(crate) fn json_object(
    texts: &Vec<(String, String)>,
    numbers: &Vec<(String, u64)>,
    lists: &Vec<(String, Vec<String>)>,
    raws: &Vec<(String, String)>,
) -> (r: Option<String>)
    ensures
        r is Some <==> raws_parse(pairs_view(raws@)),
        r matches Some(s) ==> s@ == json_object_text(
            pairs_view(texts@),
            numbers_view(numbers@),
            lists_view(lists@),
            pairs_view(raws@),
        ),
{
    let mut map = serde_json::Map::new();
    for (k, v) in texts.iter() { map.insert(k.clone(), serde_json::Value::from(v.as_str())); }
    for (k, v) in numbers.iter() { map.insert(k.clone(), serde_json::Value::from(*v)); }
    for (k, v) in lists.iter() { map.insert(k.clone(), serde_json::Value::from(v.clone())); }
    for (k, v) in raws.iter() { map.insert(k.clone(), serde_json::from_str(v).ok()?); }
    Some(serde_json::Value::Object(map).to_string())
}

/// Parses `text` with `serde_json::from_str::<serde_json::Value>` and reads member `name`
/// with `Value::get` and `Value::as_u64`. Trusted: the result is
/// `json_u64_field(text, name)`; nothing more is claimed of it.
#[verifier::external_body]
pub(crate) fn json_u64_member(text: &str, name: &str) -> (r: Option<u64>)
    ensures
        r == json_u64_field(text@, name@),
{
    let value: serde_json::Value = serde_json::from_str(text).ok()?;
    value.get(name)?.as_u64()
}

/// Parses `text` with `serde_json::from_str::<serde_json::Value>`, reads member `name`
/// with `Value::get` and `Value::as_array`, and each item with `Value::as_str`. Trusted:
/// the result is `json_string_items(text, name)`, item by item; nothing more is claimed.
#[verifier::external_body]
pub(crate) fn json_string_list_member(text: &str, name: &str) -> (r: Option<Vec<Option<String>>>)
    ensures
        match r {
            Some(items) => json_string_items(text@, name@) == Some(
                items@.map_values(|o: Option<String>| opt_view(o)),
            ),
            None => json_string_items(text@, name@) is None,
        },
{
    let value: serde_json::Value = serde_json::from_str(text).ok()?;
    let items = value.get(name)?.as_array()?;
    Some(items.iter().map(|item| item.as_str().map(|s| s.to_string())).collect())
}

} // verus!
