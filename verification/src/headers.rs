//! Response headers: reading them out of the transport's header map, and
//! classifying the content they announce.

use vstd::prelude::*;
use reqwest::header::{HeaderMap, HeaderValue};
use crate::model::{pairs, HeaderEntry, ResponseType};

verus! {

/// `reqwest::header::HeaderMap`, the multimap in which the transport hands
/// over the headers of a response. Nothing inside it is visible here.
#[verifier::external_type_specification]
#[verifier::external_body]
#[verifier::reject_recursive_types(T)]
pub struct ExHeaderMap<T>(reqwest::header::HeaderMap<T>);

/// `reqwest::header::HeaderValue`, the value type of the header map.
#[verifier::external_type_specification]
#[verifier::external_body]
pub struct ExHeaderValue(reqwest::header::HeaderValue);

/// What a header map holds: one pair for each value, in the order in which
/// the map's iterator visits them. A pair is the header's name and the
/// value as text, or `None` where the value is not text.
pub uninterp spec fn held(map: HeaderMap<HeaderValue>) -> Seq<(Seq<char>, Option<Seq<char>>)>;

/// Items as they come out of the map, as pairs of character sequences.
pub open spec fn raw_pairs(items: Seq<(String, Option<String>)>) -> Seq<
    (Seq<char>, Option<Seq<char>>),
> {
    items.map_values(
        |item: (String, Option<String>)|
            (
                item.0@,
                match item.1 {
                    Some(text) => Some(text@),
                    None => None,
                },
            ),
    )
}

/// Walks the map with `HeaderMap::iter` and hands out every pair it
/// visits: the name as `HeaderName::as_str` gives it, the value as
/// `HeaderValue::to_str` gives it, `None` where that call returns an error.
///
/// Trusted: the result is exactly what `held` names, pair by pair and in
/// the iterator's order.
#[verifier::external_body]
fn items_of(map: &HeaderMap<HeaderValue>) -> (items: Vec<(String, Option<String>)>)
    ensures
        raw_pairs(items@) == held(*map),
{
    let mut items = Vec::new();
    for (name, value) in map.iter() {
        items.push((name.as_str().to_owned(), value.to_str().ok().map(str::to_owned)));
    }
    items
}

/// The first header, in the map's order, whose value is not text.
pub open spec fn first_unreadable(entries: Seq<(Seq<char>, Option<Seq<char>>)>, at: int) -> bool {
    &&& 0 <= at < entries.len()
    &&& entries[at].1 is None
    &&& forall|j: int| 0 <= j < at ==> (#[trigger] entries[j]).1 is Some
}

/// Every value is text.
pub open spec fn all_readable(entries: Seq<(Seq<char>, Option<Seq<char>>)>) -> bool {
    forall|j: int| 0 <= j < entries.len() ==> (#[trigger] entries[j]).1 is Some
}

/// The entries with their values as text. Meaningful where all are readable.
pub open spec fn as_text(entries: Seq<(Seq<char>, Option<Seq<char>>)>) -> Seq<
    (Seq<char>, Seq<char>),
> {
    entries.map_values(|e: (Seq<char>, Option<Seq<char>>)| (e.0, e.1->0))
}

/// The words under which a header with an unreadable value is reported.
pub open spec fn unreadable_reason(name: Seq<char>) -> Seq<char> {
    "response header value is not text: "@ + name
}

/// A response header whose value could not be read as text.
#[derive(Debug, PartialEq, Eq)]
pub struct UnreadableHeader {
    /// The name of the header.
    pub name: String,
}

impl UnreadableHeader {
    /// The failure in words.
    pub fn describe(&self) -> (words: String)
        ensures
            words@ == unreadable_reason(self.name@),
    {
        "response header value is not text: ".to_owned().concat(self.name.as_str())
    }
}

/// Turns the items of a header map into a header list, each name and each
/// value as text, in the order given.
///
/// One value that is not text fails the whole list: the error names the
/// first such header, and no partial list is returned.
pub fn text_headers(items: &Vec<(String, Option<String>)>) -> (outcome: Result<
    Vec<HeaderEntry>,
    UnreadableHeader,
>)
    ensures
        match outcome {
            Ok(headers) => all_readable(raw_pairs(items@)) && pairs(headers@) == as_text(
                raw_pairs(items@),
            ),
            Err(e) => exists|at: int|
                first_unreadable(raw_pairs(items@), at) && e.name@ == raw_pairs(items@)[at].0,
        },
{
    let ghost entries = raw_pairs(items@);
    let mut headers: Vec<HeaderEntry> = Vec::new();
    let mut i: usize = 0;
    while i < items.len()
        invariant
            i <= items.len(),
            entries == raw_pairs(items@),
            forall|j: int| 0 <= j < i ==> (#[trigger] entries[j]).1 is Some,
            pairs(headers@) == as_text(entries.take(i as int)),
        decreases items.len() - i,
    {
        let ghost before = headers@;
        match &items[i].1 {
            Some(text) => {
                headers.push(HeaderEntry { name: items[i].0.clone(), value: text.clone() });
            },
            None => {
                let unreadable = UnreadableHeader { name: items[i].0.clone() };
                assert(first_unreadable(entries, i as int) && unreadable.name@ == entries[i as int].0);
                return Err(unreadable);
            },
        }
        assert(pairs(headers@) =~= pairs(before).push((entries[i as int].0, entries[i as int].1->0)));
        assert(as_text(entries.take(i + 1)) =~= as_text(entries.take(i as int)).push(
            (entries[i as int].0, entries[i as int].1->0),
        ));
        i += 1;
    }
    assert(entries.take(items.len() as int) =~= entries);
    Ok(headers)
}

/// Reads the headers of a response out of the transport's map, each name
/// and each value as text, in the map's order.
///
/// One value that is not text fails the whole list: the error names the
/// first such header, and no partial list is returned.
pub fn extract_headers(map: &HeaderMap<HeaderValue>) -> (outcome: Result<
    Vec<HeaderEntry>,
    UnreadableHeader,
>)
    ensures
        match outcome {
            Ok(headers) => all_readable(held(*map)) && pairs(headers@) == as_text(held(*map)),
            Err(e) => exists|at: int|
                first_unreadable(held(*map), at) && e.name@ == held(*map)[at].0,
        },
{
    let items = items_of(map);
    text_headers(&items)
}

/// The header that announces JSON content.
pub open spec fn json_marker() -> (Seq<char>, Seq<char>) {
    ("content-type"@, "application/json"@)
}

/// The kind of content that a header list announces: JSON where the list
/// holds the marker exactly, letter for letter in name and value, and text
/// otherwise. A value with a parameter behind the media type is no match.
pub open spec fn kind_of(headers: Seq<(Seq<char>, Seq<char>)>) -> ResponseType {
    if headers.contains(json_marker()) {
        ResponseType::JSON
    } else {
        ResponseType::TEXT
    }
}

/// Classifies the content of a response by its headers.
pub fn classify(headers: &Vec<HeaderEntry>) -> (kind: ResponseType)
    ensures
        kind == kind_of(pairs(headers@)),
{
    let name = "content-type".to_owned();
    let value = "application/json".to_owned();
    let mut i: usize = 0;
    while i < headers.len()
        invariant
            i <= headers.len(),
            name@ == json_marker().0,
            value@ == json_marker().1,
            forall|j: int| 0 <= j < i ==> pairs(headers@)[j] != json_marker(),
        decreases headers.len() - i,
    {
        if headers[i].name == name && headers[i].value == value {
            assert(pairs(headers@)[i as int] == json_marker());
            return ResponseType::JSON;
        }
        i += 1;
    }
    ResponseType::TEXT
}

} // verus!
