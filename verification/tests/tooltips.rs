use perfwindow::tooltips::{describe, description_entry, DESCRIPTION_COUNT};

#[test]
fn describe_is_case_insensitive() {
    assert!(describe("TEMP").is_some());
    assert!(describe("temp").is_some());
    assert!(describe("Temp").is_some());
}

#[test]
fn describe_trims_whitespace() {
    assert!(describe("  POWER  ").is_some());
}

#[test]
fn describe_returns_none_for_unknown_keys() {
    assert!(describe("ZZZ-NONEXISTENT").is_none());
}

#[test]
fn every_descriptions_entry_is_non_empty() {
    for i in 0..DESCRIPTION_COUNT {
        let (key, value) = description_entry(i);
        assert!(!key.is_empty(), "empty key in DESCRIPTIONS");
        assert!(!value.is_empty(), "empty value for key {key}");
    }
}

#[test]
fn describe_returns_the_table_text() {
    let (key, value) = description_entry(0);
    assert_eq!(describe(key), Some(value));
    assert_eq!(describe(&format!("  {}  ", key.to_lowercase())), Some(value));
}
