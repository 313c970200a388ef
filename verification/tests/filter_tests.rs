use tiered_kv::errors::ApiErrorType;
use tiered_kv::filter::{
    count_occupied, power_of_two, ExistenceFilter, StorageReadyCuckooFilter, EMPTY_CELL,
    NEW_FILTER_CELLS,
};

#[test]
fn new_filter_knows_nothing() {
    let filter = ExistenceFilter::new();
    assert!(!filter.contains("0x123"));
    assert!(!filter.contains(""));
    assert!(!filter.is_dirty());
}

#[test]
fn insert_then_contains_then_delete() {
    let mut filter = ExistenceFilter::new();
    assert_eq!(filter.insert("0x123"), Ok(()));
    assert!(filter.contains("0x123"));
    assert!(filter.is_dirty());
    assert!(filter.delete("0x123"));
    assert!(!filter.contains("0x123"));
    assert!(!filter.delete("0x123"));
}

#[test]
fn an_address_inserted_twice_needs_two_deletions() {
    let mut filter = ExistenceFilter::new();
    assert_eq!(filter.insert("twice"), Ok(()));
    assert_eq!(filter.insert("twice"), Ok(()));
    assert!(filter.delete("twice"));
    assert!(filter.contains("twice"));
    assert!(filter.delete("twice"));
    assert!(!filter.contains("twice"));
}

#[test]
fn deleting_an_unknown_address_changes_nothing() {
    let mut filter = ExistenceFilter::new();
    assert_eq!(filter.insert("kept"), Ok(()));
    let before = filter.export();
    assert!(!filter.delete("never inserted"));
    assert_eq!(filter.export(), before);
    assert!(filter.contains("kept"));
}

#[test]
fn a_new_filter_exports_blank_cells() {
    let filter = ExistenceFilter::new();
    let snapshot = filter.export();
    assert_eq!(snapshot.length, 0);
    assert_eq!(snapshot.values.len(), NEW_FILTER_CELLS);
    assert!(snapshot.values.iter().all(|cell| *cell == EMPTY_CELL));
    assert!(snapshot.is_sound());
}

#[test]
fn export_counts_the_cells_in_use() {
    let mut filter = ExistenceFilter::new();
    for address in ["a", "b", "c"] {
        assert_eq!(filter.insert(address), Ok(()));
    }
    let snapshot = filter.export();
    assert_eq!(snapshot.length, 3);
    assert_eq!(count_occupied(&snapshot.values), 3);
    assert!(snapshot.is_sound());
}

#[test]
fn an_imported_filter_answers_as_the_exported_one() {
    let mut filter = ExistenceFilter::new();
    let known = ["0x123", "0xabc", "another address", ""];
    for address in known {
        assert_eq!(filter.insert(address), Ok(()));
    }
    let rebuilt = ExistenceFilter::import(filter.export()).expect("a sound snapshot");
    for address in known {
        assert!(rebuilt.contains(address));
    }
    for address in ["0x124", "unknown", "0xABC"] {
        assert_eq!(rebuilt.contains(address), filter.contains(address));
    }
    assert_eq!(rebuilt.export(), filter.export());
    assert!(!rebuilt.is_dirty());
}

#[test]
fn an_imported_filter_can_be_changed() {
    let mut filter = ExistenceFilter::new();
    assert_eq!(filter.insert("first"), Ok(()));
    let mut rebuilt = ExistenceFilter::import(filter.export()).expect("a sound snapshot");
    assert!(rebuilt.delete("first"));
    assert!(!rebuilt.contains("first"));
    assert_eq!(rebuilt.insert("second"), Ok(()));
    assert!(rebuilt.contains("second"));
    assert_eq!(rebuilt.export().length, 1);
}

#[test]
fn unsound_snapshots_are_not_imported() {
    let empty = StorageReadyCuckooFilter { values: Vec::new(), length: 0 };
    assert!(!empty.is_sound());
    assert!(ExistenceFilter::import(empty).is_none());

    let ragged = StorageReadyCuckooFilter { values: vec![EMPTY_CELL; 6], length: 0 };
    assert!(!ragged.is_sound());
    assert!(ExistenceFilter::import(ragged).is_none());

    let three_buckets = StorageReadyCuckooFilter { values: vec![EMPTY_CELL; 12], length: 0 };
    assert!(!three_buckets.is_sound());
    assert!(ExistenceFilter::import(three_buckets).is_none());

    let wrong_count = StorageReadyCuckooFilter { values: vec![EMPTY_CELL; 8], length: 1 };
    assert!(!wrong_count.is_sound());
    assert!(ExistenceFilter::import(wrong_count).is_none());
}

#[test]
fn a_small_sound_snapshot_is_imported() {
    let mut values = vec![EMPTY_CELL; 8];
    values[5] = 17;
    let snapshot = StorageReadyCuckooFilter { values, length: 1 };
    assert!(snapshot.is_sound());
    let filter = ExistenceFilter::import(snapshot.clone()).expect("a sound snapshot");
    assert_eq!(filter.export(), snapshot);
}

#[test]
fn a_full_filter_refuses_with_its_own_error() {
    let snapshot = StorageReadyCuckooFilter { values: vec![1u8; 4], length: 4 };
    assert!(snapshot.is_sound());
    let mut filter = ExistenceFilter::import(snapshot).expect("a sound snapshot");
    let mut refused = 0;
    for round in 0..64 {
        let address = format!("address {}", round);
        match filter.insert(&address) {
            Ok(()) => panic!("a filter without an unused cell took an address"),
            Err(error) => {
                assert_eq!(error, ApiErrorType::CuckooFilterInsertionFailed);
                refused += 1;
            }
        }
    }
    assert_eq!(refused, 64);
    assert_eq!(filter.export().values.len(), 4);
}

#[test]
fn take_snapshot_hands_out_one_per_change() {
    let mut filter = ExistenceFilter::new();
    assert!(filter.take_snapshot().is_none());
    assert_eq!(filter.insert("0x123"), Ok(()));
    let taken = filter.take_snapshot().expect("the filter changed");
    assert_eq!(taken, filter.export());
    assert!(!filter.is_dirty());
    assert!(filter.take_snapshot().is_none());
    assert!(!filter.delete("unknown"));
    assert!(filter.take_snapshot().is_none());
    assert!(filter.delete("0x123"));
    assert!(filter.take_snapshot().is_some());
}

#[test]
fn powers_of_two_are_told_apart() {
    for n in [1usize, 2, 4, 8, 1024, 262144] {
        assert!(power_of_two(n));
    }
    for n in [0usize, 3, 5, 6, 7, 12, 1000, 262143] {
        assert!(!power_of_two(n));
    }
}

#[test]
fn occupied_cells_are_counted() {
    assert_eq!(count_occupied(&Vec::new()), 0);
    assert_eq!(count_occupied(&vec![EMPTY_CELL, EMPTY_CELL]), 0);
    assert_eq!(count_occupied(&vec![EMPTY_CELL, 1, 99, 101, EMPTY_CELL, 0]), 4);
}

#[test]
fn every_inserted_address_stays_known() {
    let mut filter = ExistenceFilter::new();
    for round in 0..2000 {
        assert_eq!(filter.insert(&format!("address {}", round)), Ok(()));
    }
    for round in 0..2000 {
        assert!(filter.contains(&format!("address {}", round)));
    }
    assert_eq!(filter.export().length, 2000);
}

#[test]
fn a_filter_of_one_bucket_takes_four_addresses() {
    let snapshot = StorageReadyCuckooFilter { values: vec![EMPTY_CELL; 4], length: 0 };
    let mut filter = ExistenceFilter::import(snapshot).expect("a sound snapshot");
    for round in 0..4 {
        let address = format!("address {}", round);
        assert_eq!(filter.insert(&address), Ok(()));
        for earlier in 0..=round {
            assert!(filter.contains(&format!("address {}", earlier)));
        }
        assert_eq!(filter.export().length, round + 1);
    }
    assert_eq!(filter.insert("a fifth"), Err(ApiErrorType::CuckooFilterInsertionFailed));
    let full = filter.export();
    assert_eq!(full.length, 4);
    assert!(full.is_sound());
}

fn small_filter() -> ExistenceFilter {
    let blank = StorageReadyCuckooFilter { values: vec![EMPTY_CELL; 64], length: 0 };
    ExistenceFilter::import(blank).expect("a sound snapshot")
}

#[test]
fn two_addresses_that_the_filter_cannot_tell_apart_share_their_cells() {
    let mut pair: Option<(String, String)> = None;
    'search: for later in 1..400 {
        let second = format!("address {}", later);
        for earlier in 0..later {
            let first = format!("address {}", earlier);
            let mut probe = small_filter();
            assert_eq!(probe.insert(&first), Ok(()));
            if probe.contains(&second) {
                pair = Some((first, second));
                break 'search;
            }
        }
    }
    let (first, second) = pair.expect("two addresses of a kind among so many");
    assert_ne!(first, second);

    let mut filter = small_filter();
    assert!(!filter.contains(&first));
    assert!(!filter.contains(&second));
    assert_eq!(filter.insert(&first), Ok(()));
    assert!(filter.contains(&second));
    assert_eq!(filter.insert(&second), Ok(()));
    assert_eq!(filter.export().length, 2);
    assert!(filter.delete(&first));
    assert!(filter.contains(&first));
    assert!(filter.contains(&second));
    assert!(filter.delete(&first));
    assert!(!filter.contains(&first));
    assert!(!filter.contains(&second));
    assert!(!filter.delete(&second));
    assert_eq!(filter.export().length, 0);
}
