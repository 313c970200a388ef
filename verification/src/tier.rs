//! What the coordinator asks of a storage tier, what a tier answers, and
//! what an answer has to be for a tier that keeps its word.
//!
//! Both the cache and the durable store keep, for each address, a mapping
//! from sub-ids to records. An address without entries is not kept at all.

use vstd::prelude::*;
use vstd::string::*;

use crate::mapping::Mapping;

verus! {

/// The contents of one address: records by sub-id.
pub type Entries = Map<Seq<char>, Seq<char>>;

/// The contents of a tier: entries by address.
pub type Store = Map<Seq<char>, Entries>;

/// How much of an address a request is about.
#[derive(Debug, PartialEq, Eq)]
pub enum Scope {
    /// Every sub-id of the address.
    Whole,
    /// One sub-id.
    One(String),
}

impl View for Scope {
    type V = Option<Seq<char>>;

    open spec fn view(&self) -> Option<Seq<char>> {
        match self {
            Scope::Whole => None,
            Scope::One(sub_id) => Some(sub_id@),
        }
    }
}

impl Clone for Scope {
    fn clone(&self) -> (copy: Self)
        ensures
            copy@ == self@,
    {
        match self {
            Scope::Whole => Scope::Whole,
            Scope::One(sub_id) => Scope::One(sub_id.clone()),
        }
    }
}

impl Scope {
    /// The scope that an optional sub-id stands for.
    pub fn from_sub_id(sub_id: Option<&str>) -> (scope: Self)
        ensures
            scope@ == match sub_id {
                Some(text) => Some(text@),
                None => None,
            },
    {
        match sub_id {
            Some(text) => Scope::One(String::from_str(text)),
            None => Scope::Whole,
        }
    }

    /// The sub-id, where the scope names one.
    pub fn sub_id(&self) -> (sub_id: Option<&str>)
        ensures
            match sub_id {
                Some(text) => self@ == Some(text@),
                None => self@ is None,
            },
    {
        match self {
            Scope::Whole => None,
            Scope::One(text) => Some(text.as_str()),
        }
    }
}

/// The two tiers that are reached by a request.
#[derive(Debug, Clone, Copy, PartialEq, Eq, Structural)]
pub enum Tier {
    /// The short-lived tier. It may lose an address at any time.
    Cache,
    /// The authoritative tier.
    Durable,
}

/// One request to a tier.
#[derive(Debug, PartialEq, Eq)]
pub enum TierRequest {
    /// Read the entries of an address, or one of them.
    Get { address: String, scope: Scope },
    /// File a record under an address and a sub-id.
    Put { address: String, sub_id: String, record: String },
    /// Let the address lapse after so many seconds.
    Expire { address: String, seconds: usize },
    /// Take away an address, or one of its entries.
    Delete { address: String, scope: Scope },
}

/// A request by what it holds.
pub enum RequestView {
    Get { address: Seq<char>, scope: Option<Seq<char>> },
    Put { address: Seq<char>, sub_id: Seq<char>, record: Seq<char> },
    Expire { address: Seq<char>, seconds: nat },
    Delete { address: Seq<char>, scope: Option<Seq<char>> },
}

impl View for TierRequest {
    type V = RequestView;

    open spec fn view(&self) -> RequestView {
        match self {
            TierRequest::Get { address, scope } => RequestView::Get {
                address: address@,
                scope: scope@,
            },
            TierRequest::Put { address, sub_id, record } => RequestView::Put {
                address: address@,
                sub_id: sub_id@,
                record: record@,
            },
            TierRequest::Expire { address, seconds } => RequestView::Expire {
                address: address@,
                seconds: *seconds as nat,
            },
            TierRequest::Delete { address, scope } => RequestView::Delete {
                address: address@,
                scope: scope@,
            },
        }
    }
}

/// A tier's answer to a `Get`.
#[derive(Debug, PartialEq, Eq)]
pub enum ReadReply {
    /// The tier holds these entries.
    Found(Mapping),
    /// The tier holds nothing that was asked for.
    Absent,
    /// The tier could not be asked.
    Failed,
}

/// An answer to a `Get` by what it holds.
pub enum ReadView {
    Found(Entries),
    Absent,
    Failed,
}

impl View for ReadReply {
    type V = ReadView;

    open spec fn view(&self) -> ReadView {
        match self {
            ReadReply::Found(mapping) => ReadView::Found(mapping@),
            ReadReply::Absent => ReadView::Absent,
            ReadReply::Failed => ReadView::Failed,
        }
    }
}

/// A tier's answer to a `Put`, an `Expire` or a `Delete`.
#[derive(Debug, Clone, Copy, PartialEq, Eq, Structural)]
pub enum WriteReply {
    /// The tier did as it was asked.
    Done,
    /// The tier refused or could not be reached.
    Failed,
}

/// The entries of `address` in `store`, if it has any.
pub open spec fn entry_of(store: Store, address: Seq<char>) -> Option<Entries> {
    if store.dom().contains(address) {
        Some(store[address])
    } else {
        None
    }
}

/// What a `Get` shows of the entries of an address: all of them, or the one
/// that is asked for, or nothing where there is nothing to show.
pub open spec fn entry_get(entry: Option<Entries>, scope: Option<Seq<char>>) -> Option<Entries> {
    match entry {
        None => None,
        Some(entries) => match scope {
            None => if entries.dom() == Set::<Seq<char>>::empty() {
                None
            } else {
                Some(entries)
            },
            Some(sub_id) => if entries.dom().contains(sub_id) {
                Some(Map::<Seq<char>, Seq<char>>::empty().insert(sub_id, entries[sub_id]))
            } else {
                None
            },
        },
    }
}

/// The entries of an address after a `Put`: the other sub-ids keep their
/// records.
pub open spec fn entry_set(entry: Option<Entries>, sub_id: Seq<char>, record: Seq<char>) -> Entries {
    match entry {
        None => Map::<Seq<char>, Seq<char>>::empty().insert(sub_id, record),
        Some(entries) => entries.insert(sub_id, record),
    }
}

/// The entries of an address after a `Delete`, or `None` where the address
/// is to go: always for the whole address, and for one sub-id where it was
/// the last.
pub open spec fn entry_delete(entry: Option<Entries>, scope: Option<Seq<char>>) -> Option<
    Entries,
> {
    match (entry, scope) {
        (Some(entries), Some(sub_id)) => if entries.remove(sub_id).dom() == Set::<
            Seq<char>,
        >::empty() {
            None
        } else {
            Some(entries.remove(sub_id))
        },
        _ => None,
    }
}

/// The answer of a store that keeps its word to a `Get`.
pub open spec fn kv_get(store: Store, address: Seq<char>, scope: Option<Seq<char>>) -> Option<
    Entries,
> {
    entry_get(entry_of(store, address), scope)
}

/// A store after a `Put` that it carried out.
pub open spec fn kv_set(store: Store, address: Seq<char>, sub_id: Seq<char>, record: Seq<char>) -> Store {
    store.insert(address, entry_set(entry_of(store, address), sub_id, record))
}

/// A store after a `Delete` that it carried out.
pub open spec fn kv_delete(store: Store, address: Seq<char>, scope: Option<Seq<char>>) -> Store {
    match entry_delete(entry_of(store, address), scope) {
        None => store.remove(address),
        Some(rest) => store.insert(address, rest),
    }
}

/// The answer that a reachable store gives to a `Get`.
pub open spec fn kv_reply(store: Store, address: Seq<char>, scope: Option<Seq<char>>) -> ReadView {
    match kv_get(store, address, scope) {
        Some(entries) => ReadView::Found(entries),
        None => ReadView::Absent,
    }
}

/// What a `Get` shows of the entries of an address.
pub fn select(entry: Option<&Mapping>, scope: &Scope) -> (shown: Option<Mapping>)
    ensures
        match shown {
            Some(mapping) => entry_get(
                match entry {
                    Some(held) => Some(held@),
                    None => None,
                },
                scope@,
            ) == Some(mapping@),
            None => entry_get(
                match entry {
                    Some(held) => Some(held@),
                    None => None,
                },
                scope@,
            ) is None,
        },
{
    match entry {
        None => None,
        Some(held) => match scope {
            Scope::Whole => if held.is_empty() {
                None
            } else {
                Some(held.duplicate())
            },
            Scope::One(sub_id) => match held.get(sub_id.as_str()) {
                Some(record) => Some(Mapping::single(sub_id.as_str(), record.as_str())),
                None => None,
            },
        },
    }
}

/// The entries of an address after a `Put`.
pub fn upsert(entry: Option<Mapping>, sub_id: &str, record: &str) -> (entries: Mapping)
    ensures
        entries@ == entry_set(
            match entry {
                Some(held) => Some(held@),
                None => None,
            },
            sub_id@,
            record@,
        ),
{
    let mut entries = match entry {
        Some(held) => held,
        None => Mapping::new(),
    };
    entries.insert(sub_id, record);
    entries
}

/// The entries of an address after a `Delete`, or `None` where the address
/// is to go.
pub fn erase(entry: Option<Mapping>, scope: &Scope) -> (rest: Option<Mapping>)
    ensures
        match rest {
            Some(mapping) => entry_delete(
                match entry {
                    Some(held) => Some(held@),
                    None => None,
                },
                scope@,
            ) == Some(mapping@),
            None => entry_delete(
                match entry {
                    Some(held) => Some(held@),
                    None => None,
                },
                scope@,
            ) is None,
        },
{
    match entry {
        None => None,
        Some(held) => match scope {
            Scope::Whole => None,
            Scope::One(sub_id) => {
                let mut rest = held;
                rest.remove(sub_id.as_str());
                if rest.is_empty() {
                    None
                } else {
                    Some(rest)
                }
            },
        },
    }
}

} // verus!
