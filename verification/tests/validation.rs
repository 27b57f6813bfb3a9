use incident_registry::fields::{
    text_len, uris_within_limit, MAX_DATE_LEN, MAX_DESCRIPTION_LEN, MAX_LOCATION_LEN,
    MAX_MEDIA_URIS, MAX_MEDIA_URI_LEN, MAX_PERPETRATOR_NAME_LEN, MAX_SPECIES, MAX_TITLE_LEN,
};
use incident_registry::{validate_fields, IncidentError};

fn check(
    name: usize,
    title: usize,
    description: usize,
    date: usize,
    location: usize,
    species: u8,
    media: &[usize],
) -> Result<(), IncidentError> {
    let uris: Vec<String> = media.iter().map(|n| "u".repeat(*n)).collect();
    validate_fields(
        &"n".repeat(name),
        &"t".repeat(title),
        &"d".repeat(description),
        &"1".repeat(date),
        &"l".repeat(location),
        species,
        &uris,
    )
}

#[test]
fn limits_have_their_values() {
    assert_eq!(MAX_PERPETRATOR_NAME_LEN, 100);
    assert_eq!(MAX_TITLE_LEN, 200);
    assert_eq!(MAX_DESCRIPTION_LEN, 2000);
    assert_eq!(MAX_DATE_LEN, 10);
    assert_eq!(MAX_LOCATION_LEN, 200);
    assert_eq!(MAX_MEDIA_URI_LEN, 128);
    assert_eq!(MAX_MEDIA_URIS, 10);
    assert_eq!(MAX_SPECIES, 2);
}

#[test]
fn empty_fields_are_valid() {
    assert_eq!(check(0, 0, 0, 0, 0, 0, &[]), Ok(()));
}

#[test]
fn every_field_at_its_limit_is_valid() {
    assert_eq!(check(100, 200, 2000, 10, 200, 2, &[128; 10]), Ok(()));
}

#[test]
fn perpetrator_name_one_byte_over() {
    assert_eq!(check(100, 0, 0, 0, 0, 0, &[]), Ok(()));
    assert_eq!(check(101, 0, 0, 0, 0, 0, &[]), Err(IncidentError::PerpetratorNameTooLong));
}

#[test]
fn title_one_byte_over() {
    assert_eq!(check(0, 200, 0, 0, 0, 0, &[]), Ok(()));
    assert_eq!(check(0, 201, 0, 0, 0, 0, &[]), Err(IncidentError::TitleTooLong));
}

#[test]
fn description_one_byte_over() {
    assert_eq!(check(0, 0, 2000, 0, 0, 0, &[]), Ok(()));
    assert_eq!(check(0, 0, 2001, 0, 0, 0, &[]), Err(IncidentError::DescriptionTooLong));
}

#[test]
fn date_one_byte_over() {
    assert_eq!(check(0, 0, 0, 10, 0, 0, &[]), Ok(()));
    assert_eq!(check(0, 0, 0, 11, 0, 0, &[]), Err(IncidentError::DateTooLong));
}

#[test]
fn location_one_byte_over() {
    assert_eq!(check(0, 0, 0, 0, 200, 0, &[]), Ok(()));
    assert_eq!(check(0, 0, 0, 0, 201, 0, &[]), Err(IncidentError::LocationTooLong));
}

#[test]
fn species_codes() {
    assert_eq!(check(0, 0, 0, 0, 0, 0, &[]), Ok(()));
    assert_eq!(check(0, 0, 0, 0, 0, 1, &[]), Ok(()));
    assert_eq!(check(0, 0, 0, 0, 0, 2, &[]), Ok(()));
    assert_eq!(check(0, 0, 0, 0, 0, 3, &[]), Err(IncidentError::InvalidSpecies));
    assert_eq!(check(0, 0, 0, 0, 0, 5, &[]), Err(IncidentError::InvalidSpecies));
    assert_eq!(check(0, 0, 0, 0, 0, 255, &[]), Err(IncidentError::InvalidSpecies));
}

#[test]
fn eleven_media_uris_are_too_many() {
    assert_eq!(check(1, 1, 1, 10, 1, 0, &[8; 11]), Err(IncidentError::TooManyMediaUris));
    assert_eq!(check(1, 1, 1, 10, 1, 0, &[8; 10]), Ok(()));
}

#[test]
fn media_uri_one_byte_over() {
    assert_eq!(check(0, 0, 0, 0, 0, 0, &[128]), Ok(()));
    assert_eq!(check(0, 0, 0, 0, 0, 0, &[129]), Err(IncidentError::MediaUriTooLong));
    assert_eq!(check(0, 0, 0, 0, 0, 0, &[1, 2, 3, 129]), Err(IncidentError::MediaUriTooLong));
    assert_eq!(check(0, 0, 0, 0, 0, 0, &[129, 1, 2]), Err(IncidentError::MediaUriTooLong));
}

#[test]
fn first_broken_constraint_is_reported() {
    assert_eq!(
        check(101, 201, 2001, 11, 201, 3, &[129; 11]),
        Err(IncidentError::PerpetratorNameTooLong)
    );
    assert_eq!(check(100, 201, 2001, 11, 201, 3, &[129; 11]), Err(IncidentError::TitleTooLong));
    assert_eq!(
        check(100, 200, 2001, 11, 201, 3, &[129; 11]),
        Err(IncidentError::DescriptionTooLong)
    );
    assert_eq!(check(100, 200, 2000, 11, 201, 3, &[129; 11]), Err(IncidentError::DateTooLong));
    assert_eq!(check(100, 200, 2000, 10, 201, 3, &[129; 11]), Err(IncidentError::LocationTooLong));
    assert_eq!(check(100, 200, 2000, 10, 200, 3, &[129; 11]), Err(IncidentError::InvalidSpecies));
    assert_eq!(check(100, 200, 2000, 10, 200, 2, &[129; 11]), Err(IncidentError::TooManyMediaUris));
    assert_eq!(check(100, 200, 2000, 10, 200, 2, &[129; 10]), Err(IncidentError::MediaUriTooLong));
}

#[test]
fn limits_count_bytes_not_characters() {
    // Fifty characters of two bytes each fill the name; one more is too many.
    let fifty = "é".repeat(50);
    let fifty_one = "é".repeat(51);
    assert_eq!(text_len(&fifty), 100);
    assert_eq!(text_len(&fifty_one), 102);
    assert_eq!(validate_fields(&fifty, "", "", "", "", 0, &[]), Ok(()));
    assert_eq!(
        validate_fields(&fifty_one, "", "", "", "", 0, &[]),
        Err(IncidentError::PerpetratorNameTooLong)
    );
    // Three characters of four bytes each overflow the date.
    assert_eq!(
        validate_fields("", "", "", "🐕🐈🐇", "", 0, &[]),
        Err(IncidentError::DateTooLong)
    );
}

#[test]
fn date_format_is_not_checked() {
    assert_eq!(validate_fields("", "", "", "not a date", "", 0, &[]), Ok(()));
    assert_eq!(validate_fields("", "", "", "2024-13-45", "", 0, &[]), Ok(()));
}

#[test]
fn text_len_counts_bytes() {
    assert_eq!(text_len(""), 0);
    assert_eq!(text_len("2024-01-01"), 10);
    assert_eq!(text_len("日本"), 6);
}

#[test]
fn uris_within_limit_looks_at_every_entry() {
    assert!(uris_within_limit(&[]));
    assert!(uris_within_limit(&["a".repeat(128), "ipfs://x".to_string()]));
    assert!(!uris_within_limit(&["ipfs://x".to_string(), "a".repeat(129)]));
    // The number of entries is not its concern.
    assert!(uris_within_limit(&vec!["ar://y".to_string(); 20]));
}

#[test]
fn error_messages() {
    assert_eq!(
        IncidentError::PerpetratorNameTooLong.message(),
        "Perpetrator name exceeds maximum length (100 chars)"
    );
    assert_eq!(IncidentError::TitleTooLong.message(), "Title exceeds maximum length (200 chars)");
    assert_eq!(
        IncidentError::DescriptionTooLong.message(),
        "Description exceeds maximum length (2000 chars)"
    );
    assert_eq!(IncidentError::DateTooLong.message(), "Date exceeds maximum length (10 chars)");
    assert_eq!(
        IncidentError::LocationTooLong.message(),
        "Location exceeds maximum length (200 chars)"
    );
    assert_eq!(
        IncidentError::InvalidSpecies.message(),
        "Invalid species value (must be 0, 1, or 2)"
    );
    assert_eq!(IncidentError::TooManyMediaUris.message(), "Too many media URIs (maximum 10)");
    assert_eq!(
        IncidentError::MediaUriTooLong.message(),
        "Media URI exceeds maximum length (128 chars)"
    );
    assert_eq!(
        IncidentError::UnauthorizedReporter.message(),
        "Only the original reporter can update this incident"
    );
    assert_eq!(
        IncidentError::DuplicateIncident.message(),
        "An incident with this identifier already exists for this reporter"
    );
}
