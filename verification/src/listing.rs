//! Decoding of a remote listing page. The upstream list call answers with a
//! JSON body whose top-level `data` array carries one object per existing
//! incident, each with an integer `id` field. This module extracts those
//! identifiers, in document order.
//!
//! The JSON document itself is read through serde_json behind trusted
//! declarations; the navigation — which fields are read, how a malformed
//! body degrades — is verified here. A body that does not parse, has no
//! `data` array, or carries an element without an unsigned integer `id`
//! yields no identifiers at all: the malformed-listing case degrades to an
//! empty extraction instead of aborting the request, deliberately aligning
//! it with the transport-failure case.

use vstd::prelude::*;
use vstd::string::StringExecFns;

verus! {

/// The request target that scopes the upstream list call to one page: the
/// incident collection resource with the page appended to its query.
pub open spec fn spec_listing_url(page: Seq<char>) -> Seq<char> {
    "https://reqres.in/api/incidents?page="@ + page
}

/// Build the URL of the list call for one page of the upstream incident
/// collection.
pub fn listing_request_url(page: &str) -> (r: String)
    ensures
        r@ == spec_listing_url(page@),
{
    let mut url: String = String::from_str("https://reqres.in/api/incidents?page=");
    url.append(page);
    url
}

#[verifier::external_type_specification]
#[verifier::external_body]
pub struct ExValue(serde_json::Value);

/// The JSON document that a piece of text parses as, or nothing where the
/// text is not valid JSON. Names the result of `serde_json::from_str`, which
/// depends on the text alone.
pub uninterp spec fn doc_of(s: Seq<char>) -> Option<serde_json::Value>;

/// The field of a JSON document under a key, or nothing where the document is
/// not an object or lacks the key. Names the result of
/// `serde_json::Value::get`, which depends on the document and the key alone.
pub uninterp spec fn doc_field(v: serde_json::Value, key: Seq<char>) -> Option<serde_json::Value>;

/// The elements of a JSON document, in document order, or nothing where the
/// document is not an array. Names the result of
/// `serde_json::Value::as_array`, which depends on the document alone.
pub uninterp spec fn doc_items(v: serde_json::Value) -> Option<Seq<serde_json::Value>>;

/// The unsigned integer a JSON document holds, or nothing where the document
/// is not a number representable as one. Names the result of
/// `serde_json::Value::as_u64`, which depends on the document alone.
pub uninterp spec fn doc_u64(v: serde_json::Value) -> Option<u64>;

/// Relies on `serde_json::from_str::<Value>`: parses the text as a JSON
/// document, or fails on text that is not valid JSON.
#[verifier::external_body]
fn parse_json(s: &str) -> (r: Option<serde_json::Value>)
    ensures
        r == doc_of(s@),
{
    match serde_json::from_str(s) {
        Ok(v) => Some(v),
        Err(_) => None,
    }
}

/// Relies on `serde_json::Value::get` with a string index: looks the key up
/// in an object document, and answers nothing on any other document or a
/// missing key.
#[verifier::external_body]
fn json_get<'a>(v: &'a serde_json::Value, key: &str) -> (r: Option<&'a serde_json::Value>)
    ensures
        match r {
            Some(f) => doc_field(*v, key@) == Some(*f),
            None => doc_field(*v, key@) is None,
        },
{
    v.get(key)
}

/// Relies on `serde_json::Value::as_array`: hands the elements of an array
/// document out, and answers nothing on any other document.
#[verifier::external_body]
fn json_as_array<'a>(v: &'a serde_json::Value) -> (r: Option<&'a Vec<serde_json::Value>>)
    ensures
        match r {
            Some(items) => doc_items(*v) == Some(items@),
            None => doc_items(*v) is None,
        },
{
    v.as_array()
}

/// Relies on `serde_json::Value::as_u64`: reads a number document as an
/// unsigned 64-bit integer where it is one, and answers nothing otherwise.
#[verifier::external_body]
fn json_as_u64(v: &serde_json::Value) -> (r: Option<u64>)
    ensures
        r == doc_u64(*v),
{
    v.as_u64()
}

/// The identifier a listing element carries: its `id` field read as an
/// unsigned integer, or nothing where the field is missing or not such a
/// number.
pub open spec fn item_id(item: serde_json::Value) -> Option<u64> {
    match doc_field(item, "id"@) {
        Some(f) => doc_u64(f),
        None => None,
    }
}

/// Whether every element of a listing's `data` array carries an identifier.
pub open spec fn all_items_have_ids(items: Seq<serde_json::Value>) -> bool {
    forall|j: int| 0 <= j < items.len() ==> item_id(items[j]) is Some
}

/// The identifiers of a listing's elements, in document order; meaningful
/// where `all_items_have_ids` holds.
pub open spec fn ids_of_items(items: Seq<serde_json::Value>) -> Seq<u64> {
    Seq::new(items.len(), |j: int| item_id(items[j])->Some_0)
}

/// The identifiers a listing body yields: the `id` of each element of the
/// top-level `data` array, in document order. A body that does not parse,
/// has no `data` array, or carries an element without an identifier yields
/// none at all.
pub open spec fn listing_ids(s: Seq<char>) -> Seq<u64> {
    match doc_of(s) {
        None => Seq::<u64>::empty(),
        Some(v) => match doc_field(v, "data"@) {
            None => Seq::<u64>::empty(),
            Some(d) => match doc_items(d) {
                None => Seq::<u64>::empty(),
                Some(items) => if all_items_have_ids(items) {
                    ids_of_items(items)
                } else {
                    Seq::<u64>::empty()
                },
            },
        },
    }
}

/// Whether a listing body parses as JSON but lacks the `data` key (or is not
/// an object at all): the shape on which extraction degrades to no
/// identifiers rather than aborting.
pub open spec fn listing_missing_data(s: Seq<char>) -> bool {
    match doc_of(s) {
        Some(v) => doc_field(v, "data"@) is None,
        None => false,
    }
}

/// Law: a listing body without a `data` key degrades to an empty extraction;
/// the request is not aborted on it.
pub proof fn lemma_missing_data_degrades(s: Seq<char>)
    requires
        listing_missing_data(s),
    ensures
        listing_ids(s) == Seq::<u64>::empty(),
{
}

/// Collect the identifier of every element, in order; nothing as soon as one
/// element lacks an unsigned integer `id`.
fn collect_ids(items: &Vec<serde_json::Value>) -> (r: Option<Vec<u64>>)
    ensures
        match r {
            Some(ids) => all_items_have_ids(items@) && ids@ == ids_of_items(items@),
            None => !all_items_have_ids(items@),
        },
{
    let mut ids: Vec<u64> = Vec::new();
    let mut j: usize = 0;
    while j < items.len()
        invariant
            0 <= j <= items@.len(),
            ids@.len() == j,
            forall|k: int| 0 <= k < j ==> item_id(items@[k]) is Some,
            forall|k: int| 0 <= k < j ==> ids@[k] == item_id(items@[k])->Some_0,
        decreases items@.len() - j,
    {
        let element_id = match json_get(&items[j], "id") {
            Some(f) => json_as_u64(f),
            None => None,
        };
        match element_id {
            Some(id) => ids.push(id),
            None => {
                return None;
            },
        }
        j += 1;
    }
    proof {
        assert(ids@ =~= ids_of_items(items@));
    }
    Some(ids)
}

/// Extract the incident identifiers a listing body carries: the `id` of each
/// element of its `data` array, in document order. Any malformed shape —
/// text that is not JSON, a missing `data` array, an element without an
/// unsigned integer `id` — yields no identifiers.
pub fn extract_listing_ids(body: &str) -> (r: Vec<u64>)
    ensures
        r@ == listing_ids(body@),
{
    let parsed = match parse_json(body) {
        Some(v) => v,
        None => {
            return Vec::new();
        },
    };
    let data = match json_get(&parsed, "data") {
        Some(d) => d,
        None => {
            return Vec::new();
        },
    };
    let items = match json_as_array(data) {
        Some(items) => items,
        None => {
            return Vec::new();
        },
    };
    match collect_ids(items) {
        Some(ids) => ids,
        None => Vec::new(),
    }
}

} // verus!
