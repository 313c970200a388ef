//! Records as JSON text: telling a document from other text, quoting, and
//! the object that holds the entries of an address.
//!
//! Reading JSON is left to `serde_json`. Verus does not read that crate;
//! what this module assumes of it is stated on the private functions at the
//! end of the file. Writing the object is done here, piece by piece.

use vstd::prelude::*;
use vstd::string::*;

use crate::mapping::{entries_map, keys_distinct, Mapping};

verus! {

/// A record as it is written out: the document itself where the record is
/// JSON, in compact form, and a JSON string that holds the text where it is
/// not.
pub open spec fn as_json(record: Seq<char>) -> Seq<char> {
    match json_compact(record) {
        Some(document) => document,
        None => json_quoted(record),
    }
}

/// One member of an object: the quoted name, a colon and the record.
pub open spec fn member_text(entry: (String, String)) -> Seq<char> {
    json_quoted(entry.0@) + ":"@ + as_json(entry.1@)
}

/// The members of an object, with commas between them.
pub open spec fn members_text(entries: Seq<(String, String)>) -> Seq<char>
    decreases entries.len(),
{
    if entries.len() == 0 {
        Seq::<char>::empty()
    } else if entries.len() == 1 {
        member_text(entries[0])
    } else {
        members_text(entries.drop_last()) + ","@ + member_text(entries.last())
    }
}

/// The JSON object with one member for each entry, in their order.
pub open spec fn object_text(entries: Seq<(String, String)>) -> Seq<char> {
    "{"@ + members_text(entries) + "}"@
}

/// Writes a record out as JSON.
pub fn json_of(record: &str) -> (text: String)
    ensures
        text@ == as_json(record@),
{
    match compact(record) {
        Some(document) => document,
        None => quoted(record),
    }
}

/// Writes the entries of an address as one JSON object: a member for each
/// sub-id, that holds its record.
pub fn serialize_all_entries(data: &Mapping) -> (text: String)
    ensures
        text@ == object_text(data.listing()),
{
    let entries = data.entries();
    let mut text = String::from_str("{");
    let mut at: usize = 0;
    while at < entries.len()
        invariant
            at <= entries@.len(),
            text@ == "{"@ + members_text(entries@.take(at as int)),
        decreases entries@.len() - at,
    {
        let ghost before = text@;
        if at > 0 {
            text.append(",");
        }
        let name = quoted(entries[at].0.as_str());
        text.append(name.as_str());
        text.append(":");
        let value = json_of(entries[at].1.as_str());
        text.append(value.as_str());
        proof {
            let taken = entries@.take(at + 1);
            assert(taken.drop_last() == entries@.take(at as int));
            assert(taken.last() == entries@[at as int]);
            if at == 0 {
                assert(entries@.take(0).len() == 0);
                assert(text@ =~= "{"@ + members_text(taken));
            } else {
                assert(text@ =~= "{"@ + members_text(taken));
            }
        }
        at = at + 1;
    }
    assert(entries@.take(at as int) == entries@);
    text.append("}");
    assert(text@ =~= object_text(entries@));
    text
}

/// Reads the entries of an address from a JSON object. Text that is no
/// JSON object has no entries to read.
pub fn parse_all_entries(text: &str) -> (data: Option<Mapping>)
    ensures
        match data {
            Some(mapping) => json_members(text@) == Some(mapping@),
            None => json_members(text@) is None,
        },
{
    match members(text) {
        Some(pairs) => {
            let mapping = Mapping::from_entries(&pairs);
            proof {
                lemma_filed_distinct(pairs@);
            }
            Some(mapping)
        },
        None => None,
    }
}

/// Filing entries without a repeated key gives the map that shows each of
/// them.
pub proof fn lemma_filed_distinct(entries: Seq<(String, String)>)
    requires
        keys_distinct(entries),
    ensures
        crate::mapping::filed(entries) == entries_map(entries),
    decreases entries.len(),
{
    if entries.len() == 0 {
        assert(entries_map(entries) =~= Map::<Seq<char>, Seq<char>>::empty());
    } else {
        let front = entries.drop_last();
        let last = entries.last();
        lemma_filed_distinct(front);
        assert forall|key: Seq<char>| #[trigger]
            entries_map(entries).dom().contains(key) <==> entries_map(front).insert(
                last.0@,
                last.1@,
            ).dom().contains(key) by {
            if crate::mapping::has_key(entries, key) {
                let i = crate::mapping::place_of(entries, key);
                if i < front.len() {
                    assert(front[i].0@ == key);
                }
            }
            if crate::mapping::has_key(front, key) {
                let i = crate::mapping::place_of(front, key);
                assert(entries[i].0@ == key);
            }
            if key == last.0@ {
                assert(entries[entries.len() - 1].0@ == key);
            }
        }
        assert forall|key: Seq<char>| #[trigger]
            entries_map(entries).dom().contains(key) implies entries_map(entries)[key]
            == entries_map(front).insert(last.0@, last.1@)[key] by {
            let i = crate::mapping::place_of(entries, key);
            crate::mapping::lemma_entry_shown(entries, i);
            if i < front.len() {
                assert(front[i] == entries[i]);
                crate::mapping::lemma_entry_shown(front, i);
                assert(entries[i].0@ != entries[entries.len() - 1].0@);
            }
        }
        assert(entries_map(entries) =~= entries_map(front).insert(last.0@, last.1@));
    }
}

// ---------------------------------------------------------------------------
// What is assumed of the `serde_json` crate.
// ---------------------------------------------------------------------------

/// The compact text that `serde_json::to_string` writes for the value that
/// `serde_json::from_str` reads from `text`, or `None` where it reads none.
pub uninterp spec fn json_compact(text: Seq<char>) -> Option<Seq<char>>;

/// The text that `serde_json::to_string` writes for the string `text`: a
/// JSON string literal.
pub uninterp spec fn json_quoted(text: Seq<char>) -> Seq<char>;

/// The members of the JSON object that `serde_json::from_str` reads from
/// `text`, each value as compact text under its name, or `None` where
/// `text` is no JSON object.
pub uninterp spec fn json_members(text: Seq<char>) -> Option<Map<Seq<char>, Seq<char>>>;

/// `serde_json::from_str` to a `Value`, which is then written back with
/// `serde_json::to_string`.
#[verifier::external_body]
fn compact(text: &str) -> (document: Option<String>)
    ensures
        match document {
            Some(written) => json_compact(text@) == Some(written@),
            None => json_compact(text@) is None,
        },
{
    match serde_json::from_str::<serde_json::Value>(text) {
        Ok(value) => serde_json::to_string(&value).ok(),
        Err(_) => None,
    }
}

/// `serde_json::to_string` on a string.
#[verifier::external_body]
pub(crate) fn quoted(text: &str) -> (literal: String)
    ensures
        literal@ == json_quoted(text@),
{
    serde_json::to_string(text).unwrap_or_default()
}

/// `serde_json::from_str` to a `Map<String, Value>`, whose members are
/// handed out as pairs of name and compact text. A `Map` holds each name
/// once.
#[verifier::external_body]
fn members(text: &str) -> (pairs: Option<Vec<(String, String)>>)
    ensures
        match pairs {
            Some(found) => keys_distinct(found@) && json_members(text@) == Some(
                entries_map(found@),
            ),
            None => json_members(text@) is None,
        },
{
    match serde_json::from_str::<serde_json::Map<String, serde_json::Value>>(text) {
        Ok(object) => Some(object.into_iter().map(|(name, value)| (name, value.to_string())).collect()),
        Err(_) => None,
    }
}

} // verus!
