//! The encoded texts of the structured columns: tag lists, dependency lists, remotes
//! and the free-form maps. Writing and reading JSON is `serde_json`'s work. This module
//! adds two rules: a text that cannot be read stands for the empty value, and the
//! encoding of a list of strings is stored only once it has been read back as that
//! list.
use std::collections::{BTreeMap, HashMap};
use vstd::prelude::*;

verus! {

/// `serde_json::Error`, carried through as it comes.
#[verifier::external_type_specification]
#[verifier::external_body]
pub struct ExJsonError(serde_json::Error);

/// `serde_json::Value`, carried through as it comes.
#[verifier::external_type_specification]
#[verifier::external_body]
pub struct ExJsonValue(serde_json::Value);

/// The text that `serde_json::to_string` writes for a list of strings, `None` where it
/// fails.
pub uninterp spec fn json_of_strings(list: Seq<Seq<char>>) -> Option<Seq<char>>;

/// The list of strings that `serde_json::from_str` reads from a text, `None` where it
/// rejects the text.
pub uninterp spec fn strings_of_json(text: Seq<char>) -> Option<Seq<Seq<char>>>;

/// The text that `serde_json::to_string` writes for a list of objects whose values are
/// strings, each object given by its entries of key and value; `None` where it fails.
/// An object is written as a map: its entries come out in the order of their keys, and
/// of two entries with the same key the later one is written.
pub uninterp spec fn json_of_records(list: Seq<Seq<(Seq<char>, Seq<char>)>>) -> Option<Seq<char>>;

/// The list of objects whose values are strings that `serde_json::from_str` reads from
/// a text, each object as its entries of key and value in the order of the keys; `None`
/// where it rejects the text.
pub uninterp spec fn records_of_json(text: Seq<char>) -> Option<Seq<Seq<(Seq<char>, Seq<char>)>>>;

/// Whether `serde_json::from_str` reads a map from strings to JSON values from a text.
pub uninterp spec fn object_in_json(text: Seq<char>) -> bool;

/// Calls `serde_json::to_string` on a list of strings. Not proved: that what it returns
/// is what `json_of_strings` names for the list, a failure included. Nothing is claimed
/// of the lists on which it fails.
#[verifier::external_body]
pub(crate) fn write_strings(list: &Vec<String>) -> (r: Result<String, serde_json::Error>)
    ensures
        match r {
            Ok(text) => json_of_strings(list.deep_view()) == Some(text@),
            Err(_) => json_of_strings(list.deep_view()) is None,
        },
{
    serde_json::to_string(list)
}

/// Calls `serde_json::from_str` for a list of strings. Not proved: that what it returns
/// is what `strings_of_json` names for the text.
#[verifier::external_body]
pub(crate) fn read_strings(text: &str) -> (r: Result<Vec<String>, serde_json::Error>)
    ensures
        match r {
            Ok(list) => strings_of_json(text@) == Some(list.deep_view()),
            Err(_) => strings_of_json(text@) is None,
        },
{
    serde_json::from_str::<Vec<String>>(text)
}

/// Calls `serde_json::to_string` on a list of objects whose values are strings. Each
/// object is handed over as a map made of its entries. Not proved: that what it returns
/// is what `json_of_records` names for the list, a failure included.
#[verifier::external_body]
pub(crate) fn write_records(list: &Vec<Vec<(String, String)>>) -> (r: Result<String, serde_json::Error>)
    ensures
        match r {
            Ok(text) => json_of_records(list.deep_view()) == Some(text@),
            Err(_) => json_of_records(list.deep_view()) is None,
        },
{
    let objects: Vec<BTreeMap<&str, &str>> = list.iter().map(
        |entries| entries.iter().map(|entry| (entry.0.as_str(), entry.1.as_str())).collect(),
    ).collect();
    serde_json::to_string(&objects)
}

/// Calls `serde_json::from_str` for a list of objects whose values are strings, and
/// hands each object out as the list of its entries. Not proved: that what it returns
/// is what `records_of_json` names for the text.
#[verifier::external_body]
pub(crate) fn read_records(text: &str) -> (r: Result<Vec<Vec<(String, String)>>, serde_json::Error>)
    ensures
        match r {
            Ok(list) => records_of_json(text@) == Some(list.deep_view()),
            Err(_) => records_of_json(text@) is None,
        },
{
    match serde_json::from_str::<Vec<BTreeMap<String, String>>>(text) {
        Ok(objects) => Ok(objects.into_iter().map(|object| object.into_iter().collect()).collect()),
        Err(e) => Err(e),
    }
}

/// Calls `serde_json::to_string` on a map from strings to JSON values. Nothing is
/// claimed of the text: the order of its entries is the order in which the map is
/// walked.
#[verifier::external_body]
pub(crate) fn write_object(map: &HashMap<String, serde_json::Value>) -> (r: Result<
    String,
    serde_json::Error,
>) {
    serde_json::to_string(map)
}

/// Calls `serde_json::from_str` for a map from strings to JSON values. Not proved: that
/// it reads a map exactly from the texts that `object_in_json` names. Nothing is claimed
/// of the map.
#[verifier::external_body]
pub(crate) fn read_object(text: &str) -> (r: Result<
    HashMap<String, serde_json::Value>,
    serde_json::Error,
>)
    ensures
        r is Ok <==> object_in_json(text@),
{
    serde_json::from_str::<HashMap<String, serde_json::Value>>(text)
}

/// The list of strings that a stored text stands for: the list it encodes, and the
/// empty list where it encodes none.
pub open spec fn strings_in(text: Seq<char>) -> Seq<Seq<char>> {
    match strings_of_json(text) {
        Some(list) => list,
        None => Seq::empty(),
    }
}

/// The list of objects that a stored text stands for: the list it encodes, and the
/// empty list where it encodes none.
pub open spec fn records_in(text: Seq<char>) -> Seq<Seq<(Seq<char>, Seq<char>)>> {
    match records_of_json(text) {
        Some(list) => list,
        None => Seq::empty(),
    }
}

/// `text` is the encoding of the list `list`, from which the list is read back.
pub open spec fn encodes_strings(text: Seq<char>, list: Seq<Seq<char>>) -> bool {
    json_of_strings(list) == Some(text) && strings_of_json(text) == Some(list)
}

/// The text under which the list `list` can be stored: its encoding, where there is one
/// and the list is read back from it; no text otherwise.
pub open spec fn checked_encoding(list: Seq<Seq<char>>) -> Option<Seq<char>> {
    match json_of_strings(list) {
        Some(text) => if strings_of_json(text) == Some(list) {
            Some(text)
        } else {
            None
        },
        None => None,
    }
}

/// The list that an optional list stands for: none is the empty list.
pub open spec fn or_none(list: Option<Seq<Seq<char>>>) -> Seq<Seq<char>> {
    match list {
        Some(l) => l,
        None => Seq::empty(),
    }
}

/// Whether two lists hold the same texts in the same order.
pub fn same_strings(a: &Vec<String>, b: &Vec<String>) -> (same: bool)
    ensures
        same == (a.deep_view() == b.deep_view()),
{
    if a.len() != b.len() {
        assert(a.deep_view().len() != b.deep_view().len());
        return false;
    }
    let mut i: usize = 0;
    while i < a.len()
        invariant
            a.len() == b.len(),
            i <= a.len(),
            forall|j: int| 0 <= j < i ==> a@[j]@ == b@[j]@,
        decreases a.len() - i,
    {
        if a[i] != b[i] {
            assert(a.deep_view()[i as int] != b.deep_view()[i as int]);
            return false;
        }
        i += 1;
    }
    assert(a.deep_view() =~= b.deep_view());
    true
}

/// Encodes a list of strings for storing, and reads the text back to see that it
/// stands for the list: the encoding is handed out where the list is read back from
/// it, and nothing where the list cannot be encoded or is not read back.
pub fn encode_strings(list: &Vec<String>) -> (r: Option<String>)
    ensures
        match r {
            Some(text) => checked_encoding(list.deep_view()) == Some(text@),
            None => checked_encoding(list.deep_view()) is None,
        },
        r matches Some(text) ==> encodes_strings(text@, list.deep_view()),
{
    match write_strings(list) {
        Ok(text) => match read_strings(text.as_str()) {
            Ok(back) => if same_strings(&back, list) {
                Some(text)
            } else {
                None
            },
            Err(_) => None,
        },
        Err(_) => None,
    }
}

/// Reads a stored list of strings; a text that cannot be read gives the empty list.
pub fn decode_strings(text: &str) -> (list: Vec<String>)
    ensures
        list.deep_view() == strings_in(text@),
{
    match read_strings(text) {
        Ok(list) => list,
        Err(_) => {
            let list: Vec<String> = Vec::new();
            list
        },
    }
}

/// Reads a stored list of objects; a text that cannot be read gives the empty list.
pub fn decode_records(text: &str) -> (list: Vec<Vec<(String, String)>>)
    ensures
        list.deep_view() == records_in(text@),
{
    match read_records(text) {
        Ok(list) => list,
        Err(_) => {
            let list: Vec<Vec<(String, String)>> = Vec::new();
            assert(list.deep_view() =~= Seq::<Seq<(Seq<char>, Seq<char>)>>::empty());
            list
        },
    }
}

/// The map that the reading of a stored text gave, and the empty map where the text
/// could not be read.
pub fn object_or_empty(read: Result<HashMap<String, serde_json::Value>, serde_json::Error>) -> (map:
    HashMap<String, serde_json::Value>)
    ensures
        read matches Ok(m) ==> map == m,
        read is Err ==> map@ == Map::<String, serde_json::Value>::empty(),
{
    match read {
        Ok(m) => m,
        Err(_) => HashMap::new(),
    }
}

/// Reads a stored map; a text that cannot be read gives the empty map.
pub fn decode_object(text: &str) -> (map: HashMap<String, serde_json::Value>)
    ensures
        !object_in_json(text@) ==> map@ == Map::<String, serde_json::Value>::empty(),
{
    object_or_empty(read_object(text))
}

} // verus!
