//! JSON, as far as the library reads and writes it: texts, and objects that
//! lead to texts.
//!
//! Documents are parsed by `serde_json`. Of a parsed value the library sees one
//! thing: the texts in it, each under the names of the object members that
//! lead to it.
use vstd::prelude::*;
use crate::text::{optional_text, texts};

verus! {

/// `serde_json::Value`: a parsed JSON value. What is in it is seen through
/// `json_texts` alone.
#[verifier::external_type_specification]
#[verifier::external_body]
pub struct ExValue(serde_json::Value);

/// `serde_json::Error`: why a text could not be read or written. Nothing of it
/// is looked at.
#[verifier::external_type_specification]
#[verifier::external_body]
pub struct ExError(serde_json::Error);

/// The texts in a JSON value. A value that is a text holds it under the empty
/// path; an object holds, under a member's name followed by a path, what the
/// member holds under that path; any other value holds nothing.
pub uninterp spec fn json_texts(value: serde_json::Value) -> Map<Seq<Seq<char>>, Seq<char>>;

/// The texts in the JSON document that `serde_json` reads from `text`, if it
/// reads one.
pub uninterp spec fn json_document(text: Seq<char>) -> Option<Map<Seq<Seq<char>>, Seq<char>>>;

/// `text` as `serde_json` writes it, a JSON string, if it writes one.
pub uninterp spec fn json_literal(text: Seq<char>) -> Option<Seq<char>>;

/// Of `all`, what lies under `prefix`, with `prefix` taken off.
pub open spec fn texts_under(
    all: Map<Seq<Seq<char>>, Seq<char>>,
    prefix: Seq<Seq<char>>,
) -> Map<Seq<Seq<char>>, Seq<char>> {
    Map::new(
        |path: Seq<Seq<char>>| all.contains_key(prefix + path),
        |path: Seq<Seq<char>>| all[prefix + path],
    )
}

/// The text under `path`, if there is one.
pub open spec fn text_in(all: Map<Seq<Seq<char>>, Seq<char>>, path: Seq<Seq<char>>) -> Option<
    Seq<char>,
> {
    if all.contains_key(path) {
        Some(all[path])
    } else {
        None
    }
}

/// `serde_json::from_str` at the type `serde_json::Value`: parses `text`. The
/// contract gives a name to the texts of the value that is read; it says
/// neither which texts are read as documents nor what the error holds.
#[verifier::external_body]
pub(crate) fn parse(text: &str) -> (parsed: Result<serde_json::Value, serde_json::Error>)
    ensures
        match parsed {
            Ok(value) => json_document(text@) == Some(json_texts(value)),
            Err(_) => json_document(text@) is None,
        },
{
    serde_json::from_str::<serde_json::Value>(text)
}

/// `serde_json::Value::get` with a text as index: the member `key` of an
/// object. There is none if the value is no object or has no such member. The
/// contract claims that the member holds what the value holds under `key`, and
/// that the value holds nothing under `key` where there is no such member.
#[verifier::external_body]
pub(crate) fn member<'a>(value: &'a serde_json::Value, key: &str) -> (found: Option<
    &'a serde_json::Value,
>)
    ensures
        match found {
            Some(child) => json_texts(*child) == texts_under(json_texts(*value), seq![key@]),
            None => texts_under(json_texts(*value), seq![key@]) == Map::<
                Seq<Seq<char>>,
                Seq<char>,
            >::empty(),
        },
{
    value.get(key)
}

/// `serde_json::Value::as_str`: the text, if the value is one. The contract
/// claims that this is the text that the value holds under the empty path.
#[verifier::external_body]
pub(crate) fn as_text<'a>(value: &'a serde_json::Value) -> (found: Option<&'a str>)
    ensures
        match found {
            Some(text) => text_in(json_texts(*value), Seq::empty()) == Some(text@),
            None => text_in(json_texts(*value), Seq::empty()) is None,
        },
{
    value.as_str()
}

/// `serde_json::to_string_pretty` of a text: the text as a JSON string. The
/// contract gives a name to what is written, which the text alone decides: the
/// string, or nothing where the call fails. It does not say that a string is
/// written, nor what the error holds.
#[verifier::external_body]
pub(crate) fn to_literal(text: &str) -> (written: Result<String, serde_json::Error>)
    ensures
        match written {
            Ok(literal) => json_literal(text@) == Some(literal@),
            Err(_) => json_literal(text@) is None,
        },
{
    serde_json::to_string_pretty(text)
}

/// What lies under a path in two steps lies under the two joined.
proof fn lemma_texts_under_twice(
    all: Map<Seq<Seq<char>>, Seq<char>>,
    first: Seq<Seq<char>>,
    second: Seq<Seq<char>>,
)
    ensures
        texts_under(texts_under(all, first), second) == texts_under(all, first + second),
{
    assert forall|path: Seq<Seq<char>>| #[trigger]
        (first + (second + path)) == (first + second) + path by {}
}

/// The text that `value` holds under `path`: the text reached by taking, from
/// object to object, the members that `path` names.
pub(crate) fn text_at(value: &serde_json::Value, path: &[&str]) -> (found: Option<String>)
    ensures
        optional_text(found) == text_in(json_texts(*value), texts(path@)),
{
    let ghost all = json_texts(*value);
    let ghost names = texts(path@);
    let mut current: &serde_json::Value = value;
    let mut i: usize = 0;
    while i < path.len()
        invariant
            i <= path.len(),
            all == json_texts(*value),
            names == texts(path@),
            json_texts(*current) == texts_under(all, names.take(i as int)),
        decreases path.len() - i,
    {
        let ghost prefix = names.take(i as int);
        let ghost key = seq![path@[i as int]@];
        proof {
            lemma_texts_under_twice(all, prefix, key);
            assert(prefix + key =~= names.take(i + 1));
        }
        match member(current, path[i]) {
            Some(child) => {
                current = child;
            },
            None => {
                proof {
                    let rest = names.skip(i + 1);
                    assert(names.take(i + 1) + rest =~= names);
                    assert(!texts_under(all, names.take(i + 1)).contains_key(rest));
                }
                return None;
            },
        }
        i += 1;
    }
    proof {
        assert(names.take(i as int) =~= names);
    }
    match as_text(current) {
        Some(text) => Some(String::from_str(text)),
        None => None,
    }
}

} // verus!
