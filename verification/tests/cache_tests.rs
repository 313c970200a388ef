use tiered_kv::cache::{del_data, get_data, set_data, CacheChange, CorruptEntry};
use tiered_kv::mapping::Mapping;
use tiered_kv::tier::Scope;

fn one_cached(sub_id: &str) -> Scope {
    Scope::One(sub_id.to_string())
}

#[test]
fn nothing_stored_shows_nothing() {
    assert_eq!(get_data(None, &Scope::Whole), Ok(None));
    assert_eq!(get_data(None, &one_cached("id")), Ok(None));
}

#[test]
fn stored_text_shows_all_or_one() {
    let stored = "{\"a\":1,\"b\":{\"Hello\":20}}";
    let all = get_data(Some(stored), &Scope::Whole).expect("an object").expect("entries");
    assert_eq!(all.len(), 2);
    assert_eq!(all.get("a"), Some("1".to_string()));
    assert_eq!(all.get("b"), Some("{\"Hello\":20}".to_string()));
    assert_eq!(
        get_data(Some(stored), &one_cached("b")),
        Ok(Some(Mapping::single("b", "{\"Hello\":20}")))
    );
    assert_eq!(get_data(Some(stored), &one_cached("z")), Ok(None));
}

#[test]
fn an_empty_object_shows_nothing() {
    assert_eq!(get_data(Some("{}"), &Scope::Whole), Ok(None));
}

#[test]
fn corrupt_text_is_reported() {
    assert_eq!(get_data(Some("not json"), &Scope::Whole), Err(CorruptEntry));
    assert_eq!(get_data(Some("[1]"), &one_cached("a")), Err(CorruptEntry));
    assert_eq!(set_data(Some("not json"), "a", "1"), Err(CorruptEntry));
    assert_eq!(del_data(Some("not json"), &one_cached("a")), Err(CorruptEntry));
}

#[test]
fn the_first_record_starts_the_text() {
    assert_eq!(set_data(None, "id", "{\"Hello\":20}"), Ok("{\"id\":{\"Hello\":20}}".to_string()));
}

#[test]
fn a_cached_record_is_filed_beside_the_others() {
    let text = set_data(Some("{\"a\":1}"), "b", "2").expect("an object");
    let read = get_data(Some(&text), &Scope::Whole).expect("an object").expect("entries");
    assert_eq!(read.len(), 2);
    assert_eq!(read.get("a"), Some("1".to_string()));
    assert_eq!(read.get("b"), Some("2".to_string()));
}

#[test]
fn a_cached_record_replaces_the_one_of_its_sub_id() {
    let text = set_data(Some("{\"a\":1,\"b\":2}"), "a", "3").expect("an object");
    let read = get_data(Some(&text), &Scope::Whole).expect("an object").expect("entries");
    assert_eq!(read.len(), 2);
    assert_eq!(read.get("a"), Some("3".to_string()));
    assert_eq!(read.get("b"), Some("2".to_string()));
}

#[test]
fn the_whole_address_is_dropped_unread() {
    assert_eq!(del_data(Some("{\"a\":1}"), &Scope::Whole), Ok(CacheChange::Drop));
    assert_eq!(del_data(None, &Scope::Whole), Ok(CacheChange::Drop));
    assert_eq!(del_data(Some("not json"), &Scope::Whole), Ok(CacheChange::Drop));
}

#[test]
fn one_sub_id_is_taken_out() {
    match del_data(Some("{\"a\":1,\"b\":2}"), &one_cached("a")) {
        Ok(CacheChange::Store(text)) => assert_eq!(text, "{\"b\":2}"),
        other => panic!("the rest was to be stored, not {:?}", other),
    }
}

#[test]
fn the_last_sub_id_takes_the_text_with_it() {
    assert_eq!(del_data(Some("{\"a\":1}"), &one_cached("a")), Ok(CacheChange::Drop));
}

#[test]
fn a_missing_sub_id_changes_nothing() {
    assert_eq!(del_data(Some("{\"a\":1}"), &one_cached("z")), Ok(CacheChange::Keep));
    assert_eq!(del_data(None, &one_cached("z")), Ok(CacheChange::Keep));
    assert_eq!(del_data(Some("{}"), &one_cached("z")), Ok(CacheChange::Keep));
}
