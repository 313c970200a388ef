use tiered_kv::mapping::Mapping;
use tiered_kv::tier::{erase, select, upsert, Scope};

fn three() -> Mapping {
    let mut mapping = Mapping::new();
    mapping.insert("a", "1");
    mapping.insert("b", "2");
    mapping.insert("c", "3");
    mapping
}

#[test]
fn scope_follows_the_sub_id() {
    assert_eq!(Scope::from_sub_id(None), Scope::Whole);
    assert_eq!(Scope::from_sub_id(Some("id")), Scope::One("id".to_string()));
    assert_eq!(Scope::Whole.sub_id(), None);
    assert_eq!(Scope::One("id".to_string()).sub_id(), Some("id"));
    assert_eq!(Scope::One("id".to_string()).clone(), Scope::One("id".to_string()));
}

#[test]
fn select_shows_all_or_one() {
    let held = three();
    assert_eq!(select(Some(&held), &Scope::Whole), Some(three()));
    assert_eq!(
        select(Some(&held), &Scope::One("b".to_string())),
        Some(Mapping::single("b", "2"))
    );
}

#[test]
fn select_of_a_missing_sub_id_is_absence() {
    let held = three();
    assert_eq!(select(Some(&held), &Scope::One("z".to_string())), None);
}

#[test]
fn select_of_nothing_is_absence() {
    assert_eq!(select(None, &Scope::Whole), None);
    assert_eq!(select(None, &Scope::One("a".to_string())), None);
    let empty = Mapping::new();
    assert_eq!(select(Some(&empty), &Scope::Whole), None);
}

#[test]
fn upsert_keeps_the_other_sub_ids() {
    let entries = upsert(Some(three()), "d", "4");
    assert_eq!(entries.len(), 4);
    assert_eq!(entries.get("a"), Some("1".to_string()));
    assert_eq!(entries.get("d"), Some("4".to_string()));
    let replaced = upsert(Some(three()), "a", "9");
    assert_eq!(replaced.len(), 3);
    assert_eq!(replaced.get("a"), Some("9".to_string()));
    assert_eq!(replaced.get("b"), Some("2".to_string()));
}

#[test]
fn upsert_starts_an_address() {
    assert_eq!(upsert(None, "id", "1"), Mapping::single("id", "1"));
}

#[test]
fn erase_of_the_whole_address_leaves_nothing() {
    assert_eq!(erase(Some(three()), &Scope::Whole), None);
    assert_eq!(erase(None, &Scope::Whole), None);
}

#[test]
fn erase_of_one_sub_id_keeps_the_rest() {
    let rest = erase(Some(three()), &Scope::One("b".to_string())).expect("two entries stay");
    assert_eq!(rest.len(), 2);
    assert!(!rest.contains_key("b"));
    assert_eq!(erase(Some(three()), &Scope::One("z".to_string())), Some(three()));
}

#[test]
fn erase_of_the_last_sub_id_removes_the_address() {
    assert_eq!(erase(Some(Mapping::single("id", "1")), &Scope::One("id".to_string())), None);
    assert_eq!(erase(None, &Scope::One("id".to_string())), None);
}
