use incident_registry::layout::{
    BUMP_LEN, FIXED_SPACE, HEADER_LEN, IDENTIFIER_LEN, IDENTITY_LEN, MAX_SPACE, PREFIX_LEN,
    SPECIES_LEN, TIMESTAMP_LEN,
};
use incident_registry::Incident;

#[test]
fn fixed_space_is_the_sum_of_the_fixed_parts() {
    assert_eq!(
        FIXED_SPACE,
        HEADER_LEN
            + IDENTIFIER_LEN
            + IDENTITY_LEN
            + TIMESTAMP_LEN
            + 5 * PREFIX_LEN
            + SPECIES_LEN
            + PREFIX_LEN
            + BUMP_LEN
    );
    assert_eq!(FIXED_SPACE, 82);
}

#[test]
fn space_of_empty_fields() {
    assert_eq!(Incident::space("", "", "", "", "", &[]), 82);
}

#[test]
fn space_adds_the_bytes_of_each_text() {
    assert_eq!(Incident::space("A", "T", "D", "2024-01-01", "L", &[]), 96);
    assert_eq!(Incident::space("abc", "", "", "", "", &[]), 85);
    assert_eq!(Incident::space("", "abc", "", "", "", &[]), 85);
    assert_eq!(Incident::space("", "", "abc", "", "", &[]), 85);
    assert_eq!(Incident::space("", "", "", "abc", "", &[]), 85);
    assert_eq!(Incident::space("", "", "", "", "abc", &[]), 85);
}

#[test]
fn space_adds_a_prefix_and_the_bytes_of_each_media_uri() {
    assert_eq!(Incident::space("", "", "", "", "", &["".to_string()]), 86);
    assert_eq!(Incident::space("", "", "", "", "", &["ipfs://x".to_string()]), 94);
    assert_eq!(
        Incident::space("", "", "", "", "", &["ipfs://x".to_string(), "ar://yz".to_string()]),
        82 + 12 + 11
    );
}

#[test]
fn space_of_a_full_example() {
    let name = "A".repeat(100);
    assert_eq!(
        Incident::space(&name, "T", "D", "2024-01-01", "L", &["ipfs://x".to_string()]),
        207
    );
}

#[test]
fn space_counts_bytes_not_characters() {
    assert_eq!(Incident::space("é", "", "", "", "", &[]), 84);
    assert_eq!(Incident::space("", "", "", "", "", &["🐕".to_string()]), 90);
}

#[test]
fn largest_valid_record_takes_max_space() {
    let uris = vec!["u".repeat(128); 10];
    assert_eq!(
        Incident::space(
            &"n".repeat(100),
            &"t".repeat(200),
            &"d".repeat(2000),
            &"1".repeat(10),
            &"l".repeat(200),
            &uris
        ),
        MAX_SPACE
    );
    assert_eq!(MAX_SPACE, 3912);
}
