//! The cache tier's side of the key-value interface: what becomes of the
//! text that is stored under an address on each request.
//!
//! The cache keeps one string per address: a JSON object with a member for
//! each sub-id. Every change reads that string, changes the entries and
//! writes the string back. The cache is never authoritative.

use vstd::prelude::*;

use crate::json::{json_members, object_text, parse_all_entries, serialize_all_entries};
use crate::mapping::{entries_map, keys_distinct, Mapping};
use crate::tier::{entry_delete, entry_get, entry_set, erase, select, upsert, Entries, Scope};

verus! {

/// The text under an address could not be read as a JSON object.
#[derive(Debug, Clone, Copy, PartialEq, Eq, Structural)]
pub struct CorruptEntry;

/// What is to be done with the string under an address.
#[derive(Debug, Clone, PartialEq, Eq)]
pub enum CacheChange {
    /// Leave it as it is.
    Keep,
    /// Replace it by this text.
    Store(String),
    /// Remove it.
    Drop,
}

/// `text` is the JSON object that holds `entries`, in some order of its
/// members.
pub open spec fn encodes(text: Seq<char>, entries: Entries) -> bool {
    exists|listing: Seq<(String, String)>|
        keys_distinct(listing) && entries_map(listing) == entries && #[trigger] object_text(
            listing,
        ) == text
}

/// The entries that the stored text holds: none where nothing is stored.
/// Text that is no JSON object holds no answer.
pub open spec fn cached(stored: Option<Seq<char>>) -> Result<Option<Entries>, CorruptEntry> {
    match stored {
        None => Ok(None),
        Some(text) => match json_members(text) {
            Some(entries) => Ok(Some(entries)),
            None => Err(CorruptEntry),
        },
    }
}

/// Reads the entries that the stored text holds.
fn read_stored(stored: Option<&str>) -> (entries: Result<Option<Mapping>, CorruptEntry>)
    ensures
        match entries {
            Ok(Some(mapping)) => cached(
                match stored {
                    Some(text) => Some(text@),
                    None => None,
                },
            ) == Ok::<Option<Entries>, CorruptEntry>(Some(mapping@)),
            Ok(None) => stored is None,
            Err(_) => cached(
                match stored {
                    Some(text) => Some(text@),
                    None => None,
                },
            ) is Err,
        },
{
    match stored {
        None => Ok(None),
        Some(text) => match parse_all_entries(text) {
            Some(mapping) => Ok(Some(mapping)),
            None => Err(CorruptEntry),
        },
    }
}

/// Writes entries out as the text to store.
fn write_stored(entries: &Mapping) -> (text: String)
    ensures
        encodes(text@, entries@),
{
    let text = serialize_all_entries(entries);
    let pairs = entries.entries();
    assert(object_text(pairs@) == text@);
    text
}

/// What a `Get` shows of the text that is stored under an address.
pub fn get_data(stored: Option<&str>, scope: &Scope) -> (shown: Result<Option<Mapping>, CorruptEntry>)
    ensures
        match cached(
            match stored {
                Some(text) => Some(text@),
                None => None,
            },
        ) {
            Ok(held) => match shown {
                Ok(Some(mapping)) => entry_get(held, scope@) == Some(mapping@),
                Ok(None) => entry_get(held, scope@) is None,
                Err(_) => false,
            },
            Err(_) => shown is Err,
        },
{
    match read_stored(stored) {
        Ok(Some(mapping)) => Ok(select(Some(&mapping), scope)),
        Ok(None) => Ok(None),
        Err(fault) => Err(fault),
    }
}

/// The text to store under an address after `record` was filed under
/// `sub_id`: the other entries stay as they were.
pub fn set_data(stored: Option<&str>, sub_id: &str, record: &str) -> (text: Result<
    String,
    CorruptEntry,
>)
    ensures
        match cached(
            match stored {
                Some(text) => Some(text@),
                None => None,
            },
        ) {
            Ok(held) => match text {
                Ok(written) => encodes(written@, entry_set(held, sub_id@, record@)),
                Err(_) => false,
            },
            Err(_) => text is Err,
        },
{
    match read_stored(stored) {
        Ok(held) => {
            let entries = upsert(held, sub_id, record);
            Ok(write_stored(&entries))
        },
        Err(fault) => Err(fault),
    }
}

/// What a `Delete` does to the text under an address. The whole address
/// is removed without a look at the text. One sub-id is taken out of the
/// entries; the text goes with its last entry, and stays as it is where the
/// sub-id is not among them.
pub fn del_data(stored: Option<&str>, scope: &Scope) -> (change: Result<CacheChange, CorruptEntry>)
    ensures
        scope@ is None ==> change == Ok::<CacheChange, CorruptEntry>(CacheChange::Drop),
        scope@ matches Some(sub_id) ==> match cached(
            match stored {
                Some(text) => Some(text@),
                None => None,
            },
        ) {
            Ok(None) => change == Ok::<CacheChange, CorruptEntry>(CacheChange::Keep),
            Ok(Some(held)) => match change {
                Ok(CacheChange::Keep) => !held.dom().contains(sub_id),
                Ok(CacheChange::Drop) => held.dom().contains(sub_id) && entry_delete(
                    Some(held),
                    scope@,
                ) is None,
                Ok(CacheChange::Store(written)) => held.dom().contains(sub_id) && (entry_delete(
                    Some(held),
                    scope@,
                ) matches Some(rest) && encodes(written@, rest)),
                Err(_) => false,
            },
            Err(_) => change is Err,
        },
{
    match scope {
        Scope::Whole => Ok(CacheChange::Drop),
        Scope::One(sub_id) => match read_stored(stored) {
            Ok(None) => Ok(CacheChange::Keep),
            Ok(Some(mapping)) => {
                if !mapping.contains_key(sub_id.as_str()) {
                    Ok(CacheChange::Keep)
                } else {
                    match erase(Some(mapping), scope) {
                        Some(rest) => Ok(CacheChange::Store(write_stored(&rest))),
                        None => Ok(CacheChange::Drop),
                    }
                }
            },
            Err(fault) => Err(fault),
        },
    }
}

} // verus!
