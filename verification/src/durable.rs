//! The durable tier's side of the key-value interface: what becomes of the
//! document of an address on each request.
//!
//! The durable tier keeps one document per address, with the entries and
//! an optional instant of expiry. It indexes the expiry without a grace
//! period, so that a document whose expiry has come is removed by the
//! backend itself. A document without entries is not kept.

use vstd::prelude::*;
use vstd::string::*;

use crate::constants::DB_KEY;
use crate::mapping::Mapping;
use crate::tier::{entry_delete, entry_get, entry_set, erase, select, upsert, Entries, Scope};

verus! {

/// Name of the field that identifies the document of an address.
pub const ID_FIELD: &'static str = "_id";

/// Name of the field that holds the entries.
pub const DATA_FIELD: &'static str = "data";

/// Name of the field that holds the instant of expiry, and that is indexed.
pub const EXPIRY_FIELD: &'static str = "expiry";

/// Seconds that the backend waits after the expiry before it removes a
/// document.
pub const EXPIRY_GRACE_SECONDS: u64 = 0;

/// Where the documents are kept.
#[derive(Debug, Clone, PartialEq, Eq)]
pub struct MongoDbIndex {
    pub db_name: String,
    pub coll_name: String,
}

impl MongoDbIndex {
    /// The database and collection that are used where none is given.
    pub fn standard() -> (index: Self)
        ensures
            index.db_name@ == DB_KEY@,
            index.coll_name@ == DB_KEY@,
    {
        MongoDbIndex {
            db_name: String::from_str(DB_KEY),
            coll_name: String::from_str(DB_KEY),
        }
    }
}

/// The instant that lies `seconds` after `now`, in milliseconds since the
/// epoch. An instant beyond the range of the clock is the end of the range.
pub open spec fn instant_after(now: i64, seconds: usize) -> i64 {
    if now + seconds * 1000 > i64::MAX {
        i64::MAX
    } else {
        (now + seconds * 1000) as i64
    }
}

/// The document of one address: its entries, of which there is at least
/// one, and the instant from which on the backend may remove it.
#[derive(Debug, PartialEq, Eq)]
pub struct AddressEntry {
    data: Mapping,
    expiry: Option<i64>,
}

impl AddressEntry {
    #[verifier::type_invariant]
    spec fn kept(&self) -> bool {
        self.data@.dom() != Set::<Seq<char>>::empty()
    }

    /// The entries.
    pub closed spec fn entries(&self) -> Entries {
        self.data@
    }

    /// The instant of expiry in milliseconds since the epoch, if one is set.
    pub closed spec fn expires(&self) -> Option<i64> {
        self.expiry
    }

    /// The document with these entries, or none where there are no entries.
    pub fn new(data: Mapping, expiry: Option<i64>) -> (entry: Option<Self>)
        ensures
            match entry {
                Some(made) => made.entries() == data@ && made.expires() == expiry && data@.dom()
                    != Set::<Seq<char>>::empty(),
                None => data@.dom() == Set::<Seq<char>>::empty(),
            },
    {
        if data.is_empty() {
            None
        } else {
            Some(AddressEntry { data, expiry })
        }
    }

    /// The entries of the document.
    pub fn data(&self) -> (data: &Mapping)
        ensures
            data@ == self.entries(),
            data@.dom() != Set::<Seq<char>>::empty(),
    {
        proof {
            use_type_invariant(self);
        }
        &self.data
    }

    /// The instant of expiry, if one is set.
    pub fn expiry(&self) -> (expiry: Option<i64>)
        ensures
            expiry == self.expires(),
    {
        self.expiry
    }

    /// May the backend remove the document at the instant `now`?
    pub fn is_expired(&self, now: i64) -> (lapsed: bool)
        ensures
            lapsed == match self.expires() {
                Some(instant) => now >= instant,
                None => false,
            },
    {
        match self.expiry {
            Some(instant) => now >= instant,
            None => false,
        }
    }
}

/// The entries of an optional document.
pub open spec fn held(document: Option<AddressEntry>) -> Option<Entries> {
    match document {
        Some(entry) => Some(entry.entries()),
        None => None,
    }
}

/// The expiry of an optional document.
pub open spec fn lapse(document: Option<AddressEntry>) -> Option<i64> {
    match document {
        Some(entry) => entry.expires(),
        None => None,
    }
}

/// Computes the instant that lies `seconds` after `now`.
pub fn expiry_after(now: i64, seconds: usize) -> (instant: i64)
    ensures
        instant == instant_after(now, seconds),
{
    let total: i128 = (now as i128) + (seconds as i128) * 1000;
    if total > i64::MAX as i128 {
        i64::MAX
    } else {
        total as i64
    }
}

/// The document of an address after `record` was filed under `sub_id`:
/// the other entries and the expiry stay as they were.
pub fn set_data(existing: Option<AddressEntry>, sub_id: &str, record: &str) -> (document:
    AddressEntry)
    ensures
        document.entries() == entry_set(held(existing), sub_id@, record@),
        document.expires() == lapse(existing),
{
    match existing {
        Some(entry) => {
            let expiry = entry.expiry;
            let data = upsert(Some(entry.data), sub_id, record);
            assert(data@.dom().contains(sub_id@));
            AddressEntry { data, expiry }
        },
        None => {
            let data = upsert(None, sub_id, record);
            assert(data@.dom().contains(sub_id@));
            AddressEntry { data, expiry: None }
        },
    }
}

/// The document of an address after `record` was filed under `sub_id`, to
/// expire `seconds` after `now`.
pub fn set_data_with_expiry(
    existing: Option<AddressEntry>,
    sub_id: &str,
    record: &str,
    now: i64,
    seconds: usize,
) -> (document: AddressEntry)
    ensures
        document.entries() == entry_set(held(existing), sub_id@, record@),
        document.expires() == Some(instant_after(now, seconds)),
{
    let filed = set_data(existing, sub_id, record);
    proof {
        use_type_invariant(&filed);
    }
    AddressEntry { data: filed.data, expiry: Some(expiry_after(now, seconds)) }
}

/// What a `Get` shows of the document of an address.
pub fn get_data(existing: Option<&AddressEntry>, scope: &Scope) -> (shown: Option<Mapping>)
    ensures
        match shown {
            Some(mapping) => entry_get(
                match existing {
                    Some(entry) => Some(entry.entries()),
                    None => None,
                },
                scope@,
            ) == Some(mapping@),
            None => entry_get(
                match existing {
                    Some(entry) => Some(entry.entries()),
                    None => None,
                },
                scope@,
            ) is None,
        },
{
    match existing {
        Some(entry) => select(Some(&entry.data), scope),
        None => None,
    }
}

/// The document of an address after a `Delete`, or `None` where the
/// document is to be removed: for the whole address, and where the last
/// entry went. Deleting a sub-id that is not there changes nothing.
pub fn del_data(existing: Option<AddressEntry>, scope: &Scope) -> (document: Option<AddressEntry>)
    ensures
        held(document) == entry_delete(held(existing), scope@),
        document is Some ==> lapse(document) == lapse(existing),
{
    match existing {
        Some(entry) => {
            let expiry = entry.expiry;
            match erase(Some(entry.data), scope) {
                Some(rest) => {
                    Some(AddressEntry { data: rest, expiry })
                },
                None => None,
            }
        },
        None => None,
    }
}

} // verus!
