use nrg::topic::{Part, Pattern, PatternError};

#[test]
fn multi_level_wildcard_not_last_fails() {
    let r = Pattern::parse("a/#/b");
    assert!(matches!(
        r,
        Err(PatternError::MultiLevelWildcardNotLastCharacter)
    ));
}

#[test]
fn trailing_multi_level_wildcard_parses_as_prefix() {
    let p = Pattern::parse("a/#").unwrap();
    assert!(p.is_prefix);
    assert_eq!(p.parts.len(), 1);
    assert!(matches!(&p.parts[0], Part::Literal(s) if s == "a"));
}

#[test]
fn bare_multi_level_wildcard_matches_everything() {
    let p = Pattern::parse("#").unwrap();
    assert!(p.is_prefix);
    assert_eq!(p.parts.len(), 0);
    assert!(p.matches("a"));
    assert!(p.matches(""));
    assert!(p.matches("a/b/c"));
}

#[test]
fn single_level_wildcard_matches_exactly_one_part() {
    let p = Pattern::parse("sensors/+/temperature").unwrap();
    assert!(p.matches("sensors/kitchen/temperature"));
    assert!(!p.matches("sensors/kitchen/outdoor/temperature"));
    assert!(!p.matches("sensors/temperature"));
}

#[test]
fn prefix_pattern_boundary_cases() {
    let p = Pattern::parse("devices/#").unwrap();
    assert!(p.matches("devices"));
    assert!(p.matches("devices/x"));
    assert!(p.matches("devices/x/y"));
    assert!(!p.matches("device"));
}

#[test]
fn literal_pattern_is_exact() {
    let p = Pattern::parse("a/b/c").unwrap();
    assert!(p.matches("a/b/c"));
    assert!(!p.matches("a/b"));
    assert!(!p.matches("a/b/c/d"));
    assert!(!p.matches("a/b/x"));
}

#[test]
fn empty_parts_are_ordinary_literals() {
    let p = Pattern::parse("a//b").unwrap();
    assert!(p.matches("a//b"));
    assert!(!p.matches("a/b"));
    let q = Pattern::parse("a/+/b").unwrap();
    assert!(q.matches("a//b"));
    let empty = Pattern::parse("").unwrap();
    assert!(empty.matches(""));
    assert!(!empty.matches("a"));
}

#[test]
fn single_level_wildcard_as_last_part() {
    let p = Pattern::parse("a/+").unwrap();
    assert!(!p.is_prefix);
    assert!(p.matches("a/b"));
    assert!(p.matches("a/"));
    assert!(!p.matches("a"));
    assert!(!p.matches("a/b/c"));
}

#[test]
fn matching_is_repeatable() {
    let p = Pattern::parse("a/+/c").unwrap();
    for _ in 0..10 {
        assert!(p.matches("a/b/c"));
        assert!(!p.matches("a/b/d"));
    }
}

#[test]
fn part_matches_directly() {
    assert!(Part::WildcardSingleLevel.matches("anything"));
    assert!(Part::WildcardSingleLevel.matches(""));
    assert!(Part::Literal(String::from("x")).matches("x"));
    assert!(!Part::Literal(String::from("x")).matches("y"));
    assert!(Part::Literal(String::new()).matches(""));
}

#[test]
fn pattern_error_message() {
    let e = Pattern::parse("#/a").unwrap_err();
    assert_eq!(e.message(), "# only allowed as last character");
}

#[test]
fn plus_and_hash_inside_longer_parts_are_literals() {
    let p = Pattern::parse("a+/b").unwrap();
    assert!(p.matches("a+/b"));
    assert!(!p.matches("ax/b"));
    let q = Pattern::parse("a#/b").unwrap();
    assert!(q.matches("a#/b"));
}
