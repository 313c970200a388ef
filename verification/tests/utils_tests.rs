use tiered_kv::utils::{construct_druid, druid_from_picks};

#[test]
fn picks_spell_their_characters() {
    assert_eq!(druid_from_picks(&Vec::new()), "");
    assert_eq!(druid_from_picks(&vec![0, 1, 2]), "ABC");
    assert_eq!(druid_from_picks(&vec![25, 26, 51, 52, 61]), "Zaz09");
    assert_eq!(druid_from_picks(&vec![7, 30, 37, 37, 40]), "Hello");
}

#[test]
fn an_identifier_has_sixteen_letters_or_digits() {
    for _ in 0..100 {
        let druid = construct_druid();
        assert_eq!(druid.chars().count(), 16);
        assert!(druid.chars().all(|c| c.is_ascii_alphanumeric()));
    }
}

#[test]
fn identifiers_differ() {
    let first = construct_druid();
    let mut other = 0;
    for _ in 0..20 {
        if construct_druid() != first {
            other += 1;
        }
    }
    assert!(other > 0);
}
