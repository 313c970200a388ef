use tiered_kv::filter::{ExistenceFilter, StorageReadyCuckooFilter, EMPTY_CELL};
use tiered_kv::lifecycle::{
    decode_snapshot, encode_snapshot, flush, init_cuckoo_filter, load_cuckoo_filter_from_disk,
    load_cuckoo_filter_request, save_cuckoo_filter_to_disk, LoadError,
};
use tiered_kv::mapping::Mapping;
use tiered_kv::tier::{ReadReply, Scope, TierRequest};

fn small(values: Vec<u8>, length: usize) -> StorageReadyCuckooFilter {
    StorageReadyCuckooFilter { values, length }
}

fn record_of(request: TierRequest) -> String {
    match request {
        TierRequest::Put { address, sub_id, record } => {
            assert_eq!(address, "cuckoo_filter");
            assert_eq!(sub_id, "cuckoo_filter_id");
            record
        }
        other => panic!("a snapshot is filed, not {:?}", other),
    }
}

#[test]
fn a_snapshot_is_written_as_a_json_string_of_digits() {
    let snapshot = small(vec![100, 17, 100, 255], 2);
    assert_eq!(encode_snapshot(&snapshot), "\"0000000000000002641164ff\"");
    assert_eq!(encode_snapshot(&small(Vec::new(), 0)), "\"0000000000000000\"");
    assert_eq!(encode_snapshot(&small(vec![1], 258)), "\"000000000000010201\"");
}

#[test]
fn a_large_count_takes_all_eight_bytes() {
    let snapshot = small(Vec::new(), 0x0102_0304_0506_0708);
    assert_eq!(encode_snapshot(&snapshot), "\"0102030405060708\"");
    assert_eq!(decode_snapshot("\"0102030405060708\""), Some(snapshot));
}

#[test]
fn a_record_is_read_back_as_the_snapshot() {
    let snapshot = small(vec![100, 17, 100, 255], 2);
    assert_eq!(decode_snapshot("\"0000000000000002641164ff\""), Some(snapshot.clone()));
    assert_eq!(decode_snapshot("\"0000000000000002641164FF\""), None);
    assert_eq!(decode_snapshot(&encode_snapshot(&snapshot)), Some(snapshot));
    assert_eq!(decode_snapshot("\"0000000000000000\""), Some(small(Vec::new(), 0)));
}

#[test]
fn other_records_hold_no_snapshot() {
    assert_eq!(decode_snapshot(""), None);
    assert_eq!(decode_snapshot("\""), None);
    assert_eq!(decode_snapshot("\"\""), None);
    assert_eq!(decode_snapshot("0000000000000000"), None);
    assert_eq!(decode_snapshot("\"0000000000000000"), None);
    assert_eq!(decode_snapshot("\"00000000000000\""), None);
    assert_eq!(decode_snapshot("\"000000000000000\""), None);
    assert_eq!(decode_snapshot("\"00000000000000zz\""), None);
    assert_eq!(decode_snapshot("{\"values\":[],\"length\":0}"), None);
}

#[test]
fn the_filter_is_filed_under_its_reserved_place() {
    let mut filter = ExistenceFilter::new();
    assert_eq!(filter.insert("0x123"), Ok(()));
    let record = record_of(save_cuckoo_filter_to_disk(&filter));
    assert_eq!(record, encode_snapshot(&filter.export()));
    assert_eq!(decode_snapshot(&record), Some(filter.export()));
}

#[test]
fn the_filter_is_asked_for_at_its_reserved_place() {
    assert_eq!(
        load_cuckoo_filter_request(),
        TierRequest::Get {
            address: "cuckoo_filter".to_string(),
            scope: Scope::One("cuckoo_filter_id".to_string()),
        }
    );
}

#[test]
fn a_filter_survives_a_restart() {
    let mut filter = ExistenceFilter::new();
    let known = ["0x123", "0xabc", "third"];
    for address in known {
        assert_eq!(filter.insert(address), Ok(()));
    }
    let record = record_of(save_cuckoo_filter_to_disk(&filter));
    let reply = ReadReply::Found(Mapping::single("cuckoo_filter_id", &record));
    let loaded = load_cuckoo_filter_from_disk(&reply).expect("the filter that was saved");
    for address in known {
        assert!(loaded.contains(address));
    }
    for address in ["0x124", "fourth", ""] {
        assert_eq!(loaded.contains(address), filter.contains(address));
    }
    assert_eq!(loaded.export(), filter.export());
    assert!(!loaded.is_dirty());
}

#[test]
fn no_snapshot_is_reported_as_missing() {
    assert_eq!(load_cuckoo_filter_from_disk(&ReadReply::Absent).err(), Some(LoadError::Missing));
    let other = ReadReply::Found(Mapping::single("another id", "\"0000000000000000\""));
    assert_eq!(load_cuckoo_filter_from_disk(&other).err(), Some(LoadError::Missing));
    assert_eq!(LoadError::Missing.message(), "No cuckoo filter found in DB");
}

#[test]
fn a_tier_that_fails_is_reported_as_unreachable() {
    assert_eq!(
        load_cuckoo_filter_from_disk(&ReadReply::Failed).err(),
        Some(LoadError::Unreachable)
    );
    assert_eq!(LoadError::Unreachable.message(), "Failed to load cuckoo filter from disk");
}

#[test]
fn a_record_that_is_no_sound_snapshot_is_reported_as_unreadable() {
    let garbage = ReadReply::Found(Mapping::single("cuckoo_filter_id", "{\"Hello\":20}"));
    assert_eq!(load_cuckoo_filter_from_disk(&garbage).err(), Some(LoadError::Unreadable));
    let no_buckets = ReadReply::Found(Mapping::single(
        "cuckoo_filter_id",
        &encode_snapshot(&small(Vec::new(), 0)),
    ));
    assert_eq!(load_cuckoo_filter_from_disk(&no_buckets).err(), Some(LoadError::Unreadable));
    let wrong_count = ReadReply::Found(Mapping::single(
        "cuckoo_filter_id",
        &encode_snapshot(&small(vec![EMPTY_CELL; 4], 3)),
    ));
    assert_eq!(load_cuckoo_filter_from_disk(&wrong_count).err(), Some(LoadError::Unreadable));
    assert_eq!(LoadError::Unreadable.message(), "Stored cuckoo filter cannot be read");
}

#[test]
fn a_loaded_filter_starts_as_it_is() {
    let mut filter = ExistenceFilter::new();
    assert_eq!(filter.insert("0x123"), Ok(()));
    let snapshot = filter.export();
    let loaded = ExistenceFilter::import(snapshot.clone()).expect("a sound snapshot");
    let start = init_cuckoo_filter(Ok(loaded));
    assert!(start.persist.is_none());
    assert_eq!(start.filter.export(), snapshot);
}

#[test]
fn without_a_loaded_filter_an_empty_one_starts_and_is_filed() {
    for error in [LoadError::Missing, LoadError::Unreadable, LoadError::Unreachable] {
        let start = init_cuckoo_filter(Err(error));
        assert!(!start.filter.contains("0x123"));
        assert_eq!(start.filter.export().length, 0);
        let record = record_of(start.persist.expect("the empty filter is filed"));
        assert_eq!(decode_snapshot(&record), Some(ExistenceFilter::new().export()));
    }
}

#[test]
fn flush_files_a_changed_filter_once() {
    let mut filter = ExistenceFilter::new();
    assert!(flush(&mut filter).is_none());
    assert_eq!(filter.insert("0x123"), Ok(()));
    let record = record_of(flush(&mut filter).expect("the filter changed"));
    assert_eq!(decode_snapshot(&record), Some(filter.export()));
    assert!(flush(&mut filter).is_none());
    assert!(filter.contains("0x123"));
}
