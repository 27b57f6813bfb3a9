use vstd::prelude::*;
use vstd::utf8::{encode_utf8, is_ascii_chars, is_ascii_chars_encode_utf8};
use crate::error::IncidentError;

verus! {

/// Longest perpetrator name, in bytes.
pub const MAX_PERPETRATOR_NAME_LEN: usize = 100;

/// Longest title, in bytes.
pub const MAX_TITLE_LEN: usize = 200;

/// Longest description, in bytes.
pub const MAX_DESCRIPTION_LEN: usize = 2000;

/// Longest incident date, in bytes: room for "YYYY-MM-DD".
pub const MAX_DATE_LEN: usize = 10;

/// Longest location, in bytes.
pub const MAX_LOCATION_LEN: usize = 200;

/// Longest media URI, in bytes.
pub const MAX_MEDIA_URI_LEN: usize = 128;

/// Most media URIs a record may carry.
pub const MAX_MEDIA_URIS: usize = 10;

/// Highest species code: 0 is a dog, 1 a cat, 2 any other animal.
pub const MAX_SPECIES: u8 = 2;

/// The replaceable content of a record, as mathematical values: five texts,
/// the species code and the ordered list of media URIs.
pub struct Fields {
    pub perpetrator_name: Seq<char>,
    pub title: Seq<char>,
    pub description: Seq<char>,
    pub incident_date: Seq<char>,
    pub location: Seq<char>,
    pub species: u8,
    pub media_uris: Seq<Seq<char>>,
}

/// Number of bytes a text takes once encoded as UTF-8. Limits are on this
/// number, not on the number of characters.
pub open spec fn byte_len(text: Seq<char>) -> nat {
    encode_utf8(text).len()
}

/// A character takes between one and four bytes, so a text of `n`
/// characters takes at least `n` bytes and at most four times as many.
pub proof fn lemma_byte_len_bounds(text: Seq<char>)
    ensures
        text.len() <= byte_len(text) <= 4 * text.len(),
    decreases text.len(),
{
    if text.len() > 0 {
        lemma_byte_len_bounds(text.drop_first());
    }
}

/// A text of ASCII characters takes one byte for each character.
pub proof fn lemma_ascii_byte_len(text: Seq<char>)
    requires
        is_ascii_chars(text),
    ensures
        byte_len(text) == text.len(),
{
    is_ascii_chars_encode_utf8(text);
}

/// The texts held by a list of strings, in the same order.
pub open spec fn texts(list: Seq<String>) -> Seq<Seq<char>> {
    Seq::new(list.len(), |i: int| list[i]@)
}

/// Whether some media URI is longer than its limit.
pub open spec fn some_uri_too_long(media_uris: Seq<Seq<char>>) -> bool {
    exists|i: int| 0 <= i < media_uris.len() && byte_len(#[trigger] media_uris[i]) > MAX_MEDIA_URI_LEN
}

/// The first constraint that the fields break, if any. Constraints are
/// tried in a fixed order: perpetrator name, title, description, date,
/// location, species, number of media URIs, then each media URI.
pub open spec fn first_violation(f: Fields) -> Option<IncidentError> {
    if byte_len(f.perpetrator_name) > MAX_PERPETRATOR_NAME_LEN {
        Some(IncidentError::PerpetratorNameTooLong)
    } else if byte_len(f.title) > MAX_TITLE_LEN {
        Some(IncidentError::TitleTooLong)
    } else if byte_len(f.description) > MAX_DESCRIPTION_LEN {
        Some(IncidentError::DescriptionTooLong)
    } else if byte_len(f.incident_date) > MAX_DATE_LEN {
        Some(IncidentError::DateTooLong)
    } else if byte_len(f.location) > MAX_LOCATION_LEN {
        Some(IncidentError::LocationTooLong)
    } else if f.species > MAX_SPECIES {
        Some(IncidentError::InvalidSpecies)
    } else if f.media_uris.len() > MAX_MEDIA_URIS {
        Some(IncidentError::TooManyMediaUris)
    } else if some_uri_too_long(f.media_uris) {
        Some(IncidentError::MediaUriTooLong)
    } else {
        None
    }
}

/// Whether the fields meet every constraint.
pub open spec fn valid_fields(f: Fields) -> bool {
    first_violation(f) is None
}

/// What validation answers for the fields: the first broken constraint as
/// an error, or success.
pub open spec fn validation(f: Fields) -> Result<(), IncidentError> {
    match first_violation(f) {
        Some(e) => Err(e),
        None => Ok(()),
    }
}

/// Length of a text in bytes.
pub fn text_len(text: &str) -> (n: usize)
    ensures
        n == byte_len(text@),
{
    text.as_bytes().len()
}

/// Checks the fields of a request against their limits and reports the
/// first constraint that is broken, in the order of `first_violation`.
pub fn validate_fields(
    perpetrator_name: &str,
    title: &str,
    description: &str,
    incident_date: &str,
    location: &str,
    species: u8,
    media_uris: &[String],
) -> (r: Result<(), IncidentError>)
    ensures
        r == validation(
            (Fields {
                perpetrator_name: perpetrator_name@,
                title: title@,
                description: description@,
                incident_date: incident_date@,
                location: location@,
                species,
                media_uris: texts(media_uris@),
            }),
        ),
{
    if text_len(perpetrator_name) > MAX_PERPETRATOR_NAME_LEN {
        return Err(IncidentError::PerpetratorNameTooLong);
    }
    if text_len(title) > MAX_TITLE_LEN {
        return Err(IncidentError::TitleTooLong);
    }
    if text_len(description) > MAX_DESCRIPTION_LEN {
        return Err(IncidentError::DescriptionTooLong);
    }
    if text_len(incident_date) > MAX_DATE_LEN {
        return Err(IncidentError::DateTooLong);
    }
    if text_len(location) > MAX_LOCATION_LEN {
        return Err(IncidentError::LocationTooLong);
    }
    if species > MAX_SPECIES {
        return Err(IncidentError::InvalidSpecies);
    }
    if media_uris.len() > MAX_MEDIA_URIS {
        return Err(IncidentError::TooManyMediaUris);
    }
    if !uris_within_limit(media_uris) {
        return Err(IncidentError::MediaUriTooLong);
    }
    Ok(())
}

/// Whether every media URI of the list is within its limit.
pub fn uris_within_limit(media_uris: &[String]) -> (ok: bool)
    ensures
        ok == !some_uri_too_long(texts(media_uris@)),
{
    let ghost uris = texts(media_uris@);
    let mut i: usize = 0;
    while i < media_uris.len()
        invariant
            i <= media_uris.len(),
            uris == texts(media_uris@),
            forall|j: int| 0 <= j < i ==> byte_len(#[trigger] uris[j]) <= MAX_MEDIA_URI_LEN,
        decreases media_uris.len() - i,
    {
        if text_len(media_uris[i].as_str()) > MAX_MEDIA_URI_LEN {
            assert(byte_len(uris[i as int]) > MAX_MEDIA_URI_LEN);
            return false;
        }
        i += 1;
    }
    true
}

} // verus!
