//! The life of the existence filter across restarts: how it is written
//! into a record, read back, and started.
//!
//! The filter is kept in the durable tier under a reserved address and
//! sub-id. Its record is a JSON string of hexadecimal text: eight bytes for
//! the number of cells in use, most significant first, and then one byte
//! for each cell.

use vstd::prelude::*;
use vstd::string::*;

use crate::constants::{CUCKOO_FILTER_KEY, CUCKOO_FILTER_VALUE_ID};
use crate::filter::{cells_valid, tallies_of, ExistenceFilter, StorageReadyCuckooFilter};
use crate::hex::{decode, encode, hex_decoded, hex_encoded, lemma_decodable, lemma_hex_round_trip};
use crate::tier::{ReadReply, ReadView, RequestView, Scope, TierRequest, WriteReply};

verus! {

/// Bytes that the count takes in a record.
pub const COUNT_BYTES: usize = 8;

/// The eight bytes of a count, most significant first.
pub open spec fn count_bytes(count: nat) -> Seq<u8> {
    seq![
        (count / 0x100_0000_0000_0000 % 256) as u8,
        (count / 0x1_0000_0000_0000 % 256) as u8,
        (count / 0x100_0000_0000 % 256) as u8,
        (count / 0x1_0000_0000 % 256) as u8,
        (count / 0x100_0000 % 256) as u8,
        (count / 0x1_0000 % 256) as u8,
        (count / 0x100 % 256) as u8,
        (count % 256) as u8,
    ]
}

/// The count that eight bytes stand for.
pub open spec fn bytes_count(bytes: Seq<u8>) -> nat {
    (bytes[0] * 0x100_0000_0000_0000 + bytes[1] * 0x1_0000_0000_0000 + bytes[2] * 0x100_0000_0000
        + bytes[3] * 0x1_0000_0000 + bytes[4] * 0x100_0000 + bytes[5] * 0x1_0000 + bytes[6] * 0x100
        + bytes[7]) as nat
}

/// The record of a snapshot.
pub open spec fn snapshot_text(values: Seq<u8>, length: nat) -> Seq<char> {
    seq!['"'] + hex_encoded(count_bytes(length) + values) + seq!['"']
}

/// The snapshot that a record holds, or `None` where the record is not
/// one of a snapshot.
pub open spec fn text_snapshot(text: Seq<char>) -> Option<(Seq<u8>, nat)> {
    if text.len() >= 2 && text[0] == '"' && text[text.len() - 1] == '"' {
        match hex_decoded(text.subrange(1, text.len() - 1)) {
            Some(bytes) => if bytes.len() >= COUNT_BYTES {
                Some((bytes.skip(COUNT_BYTES as int), bytes_count(bytes.take(COUNT_BYTES as int))))
            } else {
                None
            },
            None => None,
        }
    } else {
        None
    }
}

/// A count that fits eight bytes is read back from them.
pub proof fn lemma_count_round_trip(count: nat)
    requires
        count <= u64::MAX,
    ensures
        count_bytes(count).len() == COUNT_BYTES,
        bytes_count(count_bytes(count)) == count,
{
    let b = count_bytes(count);
    let c1 = count / 0x100;
    let c2 = c1 / 0x100;
    let c3 = c2 / 0x100;
    let c4 = c3 / 0x100;
    let c5 = c4 / 0x100;
    let c6 = c5 / 0x100;
    let c7 = c6 / 0x100;
    assert(c1 == count / 0x100);
    assert(c2 == count / 0x1_0000);
    assert(c3 == count / 0x100_0000);
    assert(c4 == count / 0x1_0000_0000);
    assert(c5 == count / 0x100_0000_0000);
    assert(c6 == count / 0x1_0000_0000_0000);
    assert(c7 == count / 0x100_0000_0000_0000);
    assert(c7 < 256);
    assert(count == c1 * 256 + count % 256);
    assert(c1 == c2 * 256 + c1 % 256);
    assert(c2 == c3 * 256 + c2 % 256);
    assert(c3 == c4 * 256 + c3 % 256);
    assert(c4 == c5 * 256 + c4 % 256);
    assert(c5 == c6 * 256 + c5 % 256);
    assert(c6 == c7 * 256 + c6 % 256);
}

/// The record of a snapshot holds that snapshot: what is written out is
/// read back cell for cell, with its count.
pub proof fn lemma_snapshot_round_trip(values: Seq<u8>, length: nat)
    requires
        length <= u64::MAX,
    ensures
        text_snapshot(snapshot_text(values, length)) == Some((values, length)),
{
    let bytes = count_bytes(length) + values;
    let text = snapshot_text(values, length);
    lemma_count_round_trip(length);
    lemma_hex_round_trip(bytes);
    assert(text.subrange(1, text.len() - 1) == hex_encoded(bytes));
    assert(bytes.skip(COUNT_BYTES as int) == values);
    assert(bytes.take(COUNT_BYTES as int) == count_bytes(length));
}

/// A filter that is written into its record and read back answers for
/// every address as it did before.
pub proof fn lemma_filter_survives(cells: Seq<u8>, held: nat)
    requires
        cells_valid(cells, held),
        held <= u64::MAX,
    ensures
        text_snapshot(snapshot_text(cells, held)) matches Some((read, count)) && cells_valid(
            read,
            count,
        ) && tallies_of(read) == tallies_of(cells),
{
    lemma_snapshot_round_trip(cells, held);
}

/// Writes a count as eight bytes, most significant first.
fn write_count(count: u64) -> (bytes: Vec<u8>)
    ensures
        bytes@ == count_bytes(count as nat),
{
    let mut bytes: Vec<u8> = Vec::new();
    bytes.push((count / 0x100_0000_0000_0000 % 256) as u8);
    bytes.push((count / 0x1_0000_0000_0000 % 256) as u8);
    bytes.push((count / 0x100_0000_0000 % 256) as u8);
    bytes.push((count / 0x1_0000_0000 % 256) as u8);
    bytes.push((count / 0x100_0000 % 256) as u8);
    bytes.push((count / 0x1_0000 % 256) as u8);
    bytes.push((count / 0x100 % 256) as u8);
    bytes.push((count % 256) as u8);
    assert(bytes@ =~= count_bytes(count as nat));
    bytes
}

/// Writes a snapshot into its record.
pub fn encode_snapshot(snapshot: &StorageReadyCuckooFilter) -> (record: String)
    ensures
        record@ == snapshot_text(snapshot.values@, snapshot.length as nat),
{
    let mut bytes = write_count(snapshot.length as u64);
    let mut at: usize = 0;
    while at < snapshot.values.len()
        invariant
            at <= snapshot.values@.len(),
            bytes@ == count_bytes(snapshot.length as nat) + snapshot.values@.take(at as int),
        decreases snapshot.values@.len() - at,
    {
        bytes.push(snapshot.values[at]);
        assert(snapshot.values@.take(at + 1) == snapshot.values@.take(at as int).push(
            snapshot.values@[at as int],
        ));
        at = at + 1;
    }
    assert(snapshot.values@.take(at as int) == snapshot.values@);
    let digits = encode(&bytes);
    proof {
        reveal_strlit("\"");
    }
    let mut record = String::from_str("\"");
    record.append(digits.as_str());
    record.append("\"");
    assert(record@ =~= snapshot_text(snapshot.values@, snapshot.length as nat));
    record
}

/// Reads the snapshot that a record holds. A count that this machine
/// cannot hold makes the record unreadable.
pub fn decode_snapshot(record: &str) -> (snapshot: Option<StorageReadyCuckooFilter>)
    ensures
        match snapshot {
            Some(read) => text_snapshot(record@) == Some((read.values@, read.length as nat)),
            None => match text_snapshot(record@) {
                Some((_, count)) => count > usize::MAX,
                None => true,
            },
        },
{
    let length = record.unicode_len();
    if length < 2 {
        return None;
    }
    if record.get_char(0) != '"' || record.get_char(length - 1) != '"' {
        return None;
    }
    let digits = record.substring_char(1, length - 1);
    let bytes = match decode(digits) {
        Some(bytes) => bytes,
        None => {
            return None;
        },
    };
    if bytes.len() < COUNT_BYTES {
        return None;
    }
    let count: u64 = (bytes[0] as u64) * 0x100_0000_0000_0000 + (bytes[1] as u64)
        * 0x1_0000_0000_0000 + (bytes[2] as u64) * 0x100_0000_0000 + (bytes[3] as u64)
        * 0x1_0000_0000 + (bytes[4] as u64) * 0x100_0000 + (bytes[5] as u64) * 0x1_0000 + (
    bytes[6] as u64) * 0x100 + (bytes[7] as u64);
    assert(count == bytes_count(bytes@.take(COUNT_BYTES as int)));
    if count > usize::MAX as u64 {
        return None;
    }
    let mut values: Vec<u8> = Vec::new();
    let mut at: usize = COUNT_BYTES;
    while at < bytes.len()
        invariant
            COUNT_BYTES <= at <= bytes@.len(),
            values@ == bytes@.subrange(COUNT_BYTES as int, at as int),
        decreases bytes@.len() - at,
    {
        values.push(bytes[at]);
        assert(bytes@.subrange(COUNT_BYTES as int, at + 1) == bytes@.subrange(
            COUNT_BYTES as int,
            at as int,
        ).push(bytes@[at as int]));
        at = at + 1;
    }
    assert(values@ == bytes@.skip(COUNT_BYTES as int));
    Some(StorageReadyCuckooFilter { values, length: count as usize })
}

/// Why no filter could be loaded.
#[derive(Debug, Clone, Copy, PartialEq, Eq, Structural)]
pub enum LoadError {
    /// The durable tier holds no snapshot.
    Missing,
    /// The durable tier holds a record that is no sound snapshot.
    Unreadable,
    /// The durable tier could not be asked.
    Unreachable,
}

impl LoadError {
    /// The text shown to an operator.
    pub open spec fn message_spec(self) -> Seq<char> {
        match self {
            LoadError::Missing => "No cuckoo filter found in DB"@,
            LoadError::Unreadable => "Stored cuckoo filter cannot be read"@,
            LoadError::Unreachable => "Failed to load cuckoo filter from disk"@,
        }
    }

    /// Renders the error for an operator.
    pub fn message(&self) -> (text: String)
        ensures
            text@ == self.message_spec(),
    {
        match self {
            LoadError::Missing => String::from_str("No cuckoo filter found in DB"),
            LoadError::Unreadable => String::from_str("Stored cuckoo filter cannot be read"),
            LoadError::Unreachable => String::from_str("Failed to load cuckoo filter from disk"),
        }
    }
}

/// The request that asks the durable tier for the snapshot.
pub open spec fn load_request() -> RequestView {
    RequestView::Get { address: CUCKOO_FILTER_KEY@, scope: Some(CUCKOO_FILTER_VALUE_ID@) }
}

/// The request that files a snapshot in the durable tier.
pub open spec fn save_request(cells: Seq<u8>, held: nat) -> RequestView {
    RequestView::Put {
        address: CUCKOO_FILTER_KEY@,
        sub_id: CUCKOO_FILTER_VALUE_ID@,
        record: snapshot_text(cells, held),
    }
}

/// What the durable tier's answer holds: the snapshot, or the reason why
/// there is none.
pub open spec fn loaded_snapshot(reply: ReadView) -> Result<(Seq<u8>, nat), LoadError> {
    match reply {
        ReadView::Failed => Err(LoadError::Unreachable),
        ReadView::Absent => Err(LoadError::Missing),
        ReadView::Found(entries) => if !entries.dom().contains(CUCKOO_FILTER_VALUE_ID@) {
            Err(LoadError::Missing)
        } else {
            match text_snapshot(entries[CUCKOO_FILTER_VALUE_ID@]) {
                Some((values, length)) => if length <= usize::MAX && cells_valid(values, length) {
                    Ok((values, length))
                } else {
                    Err(LoadError::Unreadable)
                },
                None => Err(LoadError::Unreadable),
            }
        },
    }
}

/// Makes the request that files the filter's snapshot in the durable tier.
pub fn save_cuckoo_filter_to_disk(cf: &ExistenceFilter) -> (request: TierRequest)
    ensures
        request@ == save_request(cf.cells(), cf.held()),
{
    snapshot_request(&cf.export())
}

/// The request that files a snapshot.
fn snapshot_request(snapshot: &StorageReadyCuckooFilter) -> (request: TierRequest)
    ensures
        request@ == save_request(snapshot.values@, snapshot.length as nat),
{
    TierRequest::Put {
        address: String::from_str(CUCKOO_FILTER_KEY),
        sub_id: String::from_str(CUCKOO_FILTER_VALUE_ID),
        record: encode_snapshot(snapshot),
    }
}

/// Makes the request that files the filter's snapshot if the filter
/// changed since the last one, and marks the filter as saved. A node that
/// stops calls this once more, so that nothing it entered is lost.
pub fn flush(cf: &mut ExistenceFilter) -> (request: Option<TierRequest>)
    ensures
        final(cf).cells() == old(cf).cells(),
        final(cf).held() == old(cf).held(),
        !final(cf).unsaved(),
        match request {
            Some(put) => old(cf).unsaved() && put@ == save_request(old(cf).cells(), old(cf).held()),
            None => !old(cf).unsaved(),
        },
{
    match cf.take_snapshot() {
        Some(snapshot) => Some(snapshot_request(&snapshot)),
        None => None,
    }
}

/// Makes the request that asks the durable tier for the snapshot.
pub fn load_cuckoo_filter_request() -> (request: TierRequest)
    ensures
        request@ == load_request(),
{
    TierRequest::Get {
        address: String::from_str(CUCKOO_FILTER_KEY),
        scope: Scope::One(String::from_str(CUCKOO_FILTER_VALUE_ID)),
    }
}

/// Rebuilds the filter from the durable tier's answer.
pub fn load_cuckoo_filter_from_disk(reply: &ReadReply) -> (loaded: Result<ExistenceFilter, LoadError>)
    ensures
        match loaded {
            Ok(cf) => loaded_snapshot(reply@) == Ok::<(Seq<u8>, nat), LoadError>(
                (cf.cells(), cf.held()),
            ) && !cf.unsaved(),
            Err(error) => loaded_snapshot(reply@) == Err::<(Seq<u8>, nat), LoadError>(error),
        },
{
    match reply {
        ReadReply::Failed => Err(LoadError::Unreachable),
        ReadReply::Absent => Err(LoadError::Missing),
        ReadReply::Found(entries) => match entries.get(CUCKOO_FILTER_VALUE_ID) {
            None => Err(LoadError::Missing),
            Some(record) => match decode_snapshot(record.as_str()) {
                None => Err(LoadError::Unreadable),
                Some(snapshot) => match ExistenceFilter::import(snapshot) {
                    Some(cf) => Ok(cf),
                    None => Err(LoadError::Unreadable),
                },
            },
        },
    }
}

/// A filter to start with, and the request that files its snapshot where
/// there is one to file.
pub struct FilterStart {
    pub filter: ExistenceFilter,
    pub persist: Option<TierRequest>,
}

/// Starts the filter: the one that was loaded, or else an empty one, whose
/// snapshot is to be filed at once.
pub fn init_cuckoo_filter(loaded: Result<ExistenceFilter, LoadError>) -> (start: FilterStart)
    ensures
        match loaded {
            Ok(cf) => start.filter.cells() == cf.cells() && start.filter.held() == cf.held()
                && start.filter.unsaved() == cf.unsaved() && start.persist is None,
            Err(_) => {
                &&& forall|address: Seq<char>| start.filter.tally(address) == 0
                &&& !start.filter.unsaved()
                &&& start.persist matches Some(put) && put@ == save_request(
                    start.filter.cells(),
                    start.filter.held(),
                )
            },
        },
{
    match loaded {
        Ok(cf) => FilterStart { filter: cf, persist: None },
        Err(_) => {
            let cf = ExistenceFilter::new();
            let put = save_cuckoo_filter_to_disk(&cf);
            FilterStart { filter: cf, persist: Some(put) }
        },
    }
}

} // verus!
