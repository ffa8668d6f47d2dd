//! The cursor to the next page of the catalog, read from a `Link` header.

use vstd::prelude::*;
use vstd::string::StringExecFns;

verus! {

/// `parse_link_header::Error`, why a header's value was rejected. It is
/// carried through unread.
#[verifier::external_type_specification]
#[verifier::external_body]
pub struct ExLinkError(parse_link_header::Error);

/// What `parse_link_header::parse_with_rel` reads in the value of a `Link`
/// header: nothing where it rejects the value, else the raw address that it
/// found under each relation.
pub uninterp spec fn parsed_links(header: Seq<char>) -> Option<Map<Seq<char>, Seq<char>>>;

/// The pairs of relation and address are those of the map, each relation
/// once at least.
pub open spec fn lists(entries: Seq<(String, String)>, links: Map<Seq<char>, Seq<char>>) -> bool {
    &&& forall|i: int|
        0 <= i < entries.len() ==> {
            &&& links.contains_key((#[trigger] entries[i]).0@)
            &&& links[entries[i].0@] == entries[i].1@
        }
    &&& forall|rel: Seq<char>| #[trigger]
        links.contains_key(rel) ==> exists|i: int|
            0 <= i < entries.len() && (#[trigger] entries[i]).0@ == rel
}

/// `parse_link_header::parse_with_rel`: fails exactly where the named
/// result is nothing; else hands out the parsed map entry by entry, in no
/// stated order, each as its relation and its link's `raw_uri`.
#[verifier::external_body]
fn parse_links(header: &str) -> (r: Result<Vec<(String, String)>, parse_link_header::Error>)
    ensures
        match r {
            Ok(entries) => parsed_links(header@) matches Some(links) && lists(entries@, links),
            Err(_) => parsed_links(header@) is None,
        },
{
    parse_link_header::parse_with_rel(header).map(
        |links| links.into_iter().map(|(rel, link)| (rel, link.raw_uri)).collect(),
    )
}

/// `found` is the address of the first pair under the relation, or nothing
/// where no pair is under it.
pub open spec fn is_first_under(
    entries: Seq<(String, String)>,
    rel: Seq<char>,
    found: Option<Seq<char>>,
) -> bool {
    match found {
        Some(uri) => exists|i: int|
            {
                &&& 0 <= i < entries.len()
                &&& (#[trigger] entries[i]).0@ == rel
                &&& entries[i].1@ == uri
                &&& forall|j: int| 0 <= j < i ==> (#[trigger] entries[j]).0@ != rel
            },
        None => forall|i: int| 0 <= i < entries.len() ==> (#[trigger] entries[i]).0@ != rel,
    }
}

/// Looks a relation up in a list of relation and address pairs.
pub fn relation_uri(entries: &Vec<(String, String)>, rel: &str) -> (r: Option<String>)
    ensures
        is_first_under(entries@, rel@, r.deep_view()),
{
    let wanted = String::from_str(rel);
    let mut i: usize = 0;
    while i < entries.len()
        invariant
            i <= entries.len(),
            wanted@ == rel@,
            forall|j: int| 0 <= j < i ==> (#[trigger] entries@[j]).0@ != rel@,
        decreases entries.len() - i,
    {
        if entries[i].0 == wanted {
            return Some(entries[i].1.clone());
        }
        i += 1;
    }
    None
}

/// The address of the next page that a `Link` header names: that of its
/// `next` relation. A missing header, one that does not parse, and one
/// without that relation name none.
pub open spec fn next_url(header: Option<Seq<char>>) -> Option<Seq<char>> {
    match header {
        None => None,
        Some(value) => match parsed_links(value) {
            None => None,
            Some(links) => if links.contains_key("next"@) {
                Some(links["next"@])
            } else {
                None
            },
        },
    }
}

/// Finds the address of the next page in the value of a response's `Link`
/// header.
pub fn find_next_url(link_header: Option<&str>) -> (r: Option<String>)
    ensures
        r.deep_view() == next_url(link_header.deep_view()),
{
    match link_header {
        None => None,
        Some(value) => match parse_links(value) {
            Err(_) => None,
            Ok(entries) => relation_uri(&entries, "next"),
        },
    }
}

/// A byte that a header's value may hold as text: a tab, or a visible
/// ASCII character, the space among them.
pub open spec fn visible(byte: u8) -> bool {
    byte == 9 || (32 <= byte && byte < 127)
}

/// The text of a header's value: each byte as the character of its
/// number, where every byte is visible; none where one is not.
pub open spec fn header_text_of(value: Seq<u8>) -> Option<Seq<char>> {
    if forall|i: int| 0 <= i < value.len() ==> visible(#[trigger] value[i]) {
        Some(value.map_values(|byte: u8| byte as char))
    } else {
        None
    }
}

/// Reads the bytes of a header's value as text.
pub fn header_text(value: &[u8]) -> (r: Option<String>)
    ensures
        r.deep_view() == header_text_of(value@),
        r is Some <==> (forall|i: int| 0 <= i < value@.len() ==> visible(#[trigger] value@[i])),
        r matches Some(text) ==> text@ == value@.map_values(|byte: u8| byte as char),
{
    let mut text = String::new();
    let mut i: usize = 0;
    while i < value.len()
        invariant
            i <= value.len(),
            forall|j: int| 0 <= j < i ==> visible(#[trigger] value@[j]),
            text@ == value@.take(i as int).map_values(|byte: u8| byte as char),
        decreases value.len() - i,
    {
        let byte = value[i];
        if !(byte == 9 || (32 <= byte && byte < 127)) {
            return None;
        }
        text.push(byte as char);
        assert(value@.take(i + 1).map_values(|byte: u8| byte as char) =~= value@.take(
            i as int,
        ).map_values(|byte: u8| byte as char).push(byte as char));
        i += 1;
    }
    assert(value@.take(i as int) =~= value@);
    Some(text)
}

/// The address of the next page that the bytes of a `Link` header's value
/// name: none where there is no header or its value is no text, else what
/// the text names.
pub open spec fn next_url_of(link_header: Option<Seq<u8>>) -> Option<Seq<char>> {
    match link_header {
        None => None,
        Some(value) => next_url(header_text_of(value)),
    }
}

/// Finds the address of the next page in the bytes of the value of a
/// response's `Link` header.
pub fn next_page_url(link_header: Option<&[u8]>) -> (r: Option<String>)
    ensures
        r.deep_view() == next_url_of(
            match link_header {
                Some(value) => Some(value@),
                None => None,
            },
        ),
{
    match link_header {
        None => None,
        Some(value) => match header_text(value) {
            None => None,
            Some(text) => find_next_url(Some(text.as_str())),
        },
    }
}

} // verus!
