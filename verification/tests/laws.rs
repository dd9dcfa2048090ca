use tagged_types::ImplementClone;
use tagged_types::ImplementCopy;
use tagged_types::ImplementDefault;
use tagged_types::ImplementPartialEq;
use tagged_types::InnerAccess;
use tagged_types::TaggedType;
use tagged_types::TransparentFromStr;
use tagged_types::laws;

enum LawTag {}
impl InnerAccess for LawTag {}
impl ImplementDefault for LawTag {}
impl ImplementClone for LawTag {}
impl ImplementCopy for LawTag {}
impl ImplementPartialEq for LawTag {}
impl TransparentFromStr for LawTag {}

#[test]
fn test_round_trip_law_on_values() {
    assert_eq!(laws::round_trip_into_inner::<u64, LawTag>(9), 9);
    assert_eq!(
        laws::round_trip_into_inner::<String, LawTag>("secret".to_string()),
        "secret".to_string()
    );
}

#[test]
fn test_clone_equal_law_on_values() {
    let w = TaggedType::<u64, LawTag>::new(11);
    assert!(laws::clone_equals_original(&w));
}

#[test]
fn test_copy_law_on_values() {
    let w = TaggedType::<u64, LawTag>::new(3);
    let (a, b) = laws::copy_leaves_original_usable(w);
    assert!(a == b);
    assert_eq!(a.into_inner(), 3);
    assert_eq!(b.into_inner(), 3);
}

#[test]
fn test_default_law_on_values() {
    assert_eq!(laws::default_into_inner::<u64, LawTag>(), 0);
    assert_eq!(laws::default_into_inner::<String, LawTag>(), String::new());
}

#[test]
fn test_parse_law_on_values() {
    let ok = laws::parse_round_trip::<u64, _, LawTag>("42".parse::<u64>());
    assert_eq!(ok.unwrap(), 42);
    let direct = "x".parse::<u64>().unwrap_err();
    let err = laws::parse_round_trip::<u64, _, LawTag>("x".parse::<u64>());
    assert_eq!(err.unwrap_err(), direct);
}
