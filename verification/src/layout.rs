use vstd::prelude::*;
use vstd::bytes::{
    lemma_auto_spec_u32_to_from_le_bytes, lemma_auto_spec_u64_to_from_le_bytes,
    spec_u32_to_le_bytes, spec_u64_to_le_bytes,
};
use vstd::utf8::encode_utf8;
use crate::fields::{
    byte_len, some_uri_too_long, valid_fields, Fields, MAX_DATE_LEN, MAX_DESCRIPTION_LEN,
    MAX_LOCATION_LEN, MAX_MEDIA_URIS, MAX_MEDIA_URI_LEN, MAX_PERPETRATOR_NAME_LEN, MAX_TITLE_LEN,
};

verus! {

/// Bytes of the integrity header that opens every stored record.
pub const HEADER_LEN: usize = 8;

/// Bytes of the record identifier.
pub const IDENTIFIER_LEN: usize = 8;

/// Bytes of the owner's identity.
pub const IDENTITY_LEN: usize = 32;

/// Bytes of the creation timestamp.
pub const TIMESTAMP_LEN: usize = 8;

/// Bytes of the length prefix written before a text, and of the count
/// prefix written before the media list.
pub const PREFIX_LEN: usize = 4;

/// Bytes of the species code.
pub const SPECIES_LEN: usize = 1;

/// Bytes of the disambiguation byte that closes a stored record.
pub const BUMP_LEN: usize = 1;

/// Bytes that every record takes whatever its texts hold: the fixed-size
/// parts, the five text prefixes and the media count prefix.
pub const FIXED_SPACE: usize = HEADER_LEN + IDENTIFIER_LEN + IDENTITY_LEN + TIMESTAMP_LEN + 5
    * PREFIX_LEN + SPECIES_LEN + PREFIX_LEN + BUMP_LEN;

/// Largest space a record with valid fields can take.
pub const MAX_SPACE: usize = FIXED_SPACE + MAX_PERPETRATOR_NAME_LEN + MAX_TITLE_LEN
    + MAX_DESCRIPTION_LEN + MAX_DATE_LEN + MAX_LOCATION_LEN + MAX_MEDIA_URIS * (PREFIX_LEN
    + MAX_MEDIA_URI_LEN);

/// Bytes a text takes in a stored record: its prefix, then its bytes.
pub open spec fn text_space(text: Seq<char>) -> nat {
    PREFIX_LEN as nat + byte_len(text)
}

/// Bytes the entries of a media list take in a stored record.
pub open spec fn media_space(media_uris: Seq<Seq<char>>) -> nat
    decreases media_uris.len(),
{
    if media_uris.len() == 0 {
        0
    } else {
        media_space(media_uris.drop_last()) + text_space(media_uris.last())
    }
}

/// Exact number of bytes a record with these texts and this media list
/// takes in storage, part by part in the order in which they are stored.
pub open spec fn required_space(
    perpetrator_name: Seq<char>,
    title: Seq<char>,
    description: Seq<char>,
    incident_date: Seq<char>,
    location: Seq<char>,
    media_uris: Seq<Seq<char>>,
) -> nat {
    HEADER_LEN as nat + IDENTIFIER_LEN as nat + IDENTITY_LEN as nat + TIMESTAMP_LEN as nat
        + text_space(perpetrator_name) + text_space(title) + text_space(description)
        + text_space(incident_date) + text_space(location) + SPECIES_LEN as nat
        + PREFIX_LEN as nat + media_space(media_uris) + BUMP_LEN as nat
}

/// Storage a record with the given fields takes.
pub open spec fn space_of(f: Fields) -> nat {
    required_space(
        f.perpetrator_name,
        f.title,
        f.description,
        f.incident_date,
        f.location,
        f.media_uris,
    )
}

/// The entries of a longer prefix of a media list take at least as much
/// room as those of a shorter one.
pub proof fn lemma_media_space_monotonic(media_uris: Seq<Seq<char>>, i: int, j: int)
    requires
        0 <= i <= j <= media_uris.len(),
    ensures
        media_space(media_uris.take(i)) <= media_space(media_uris.take(j)),
    decreases j - i,
{
    if i < j {
        lemma_media_space_monotonic(media_uris, i, j - 1);
        assert(media_uris.take(j).drop_last() =~= media_uris.take(j - 1));
    }
}

/// A media list whose entries are all within their limit takes at most the
/// room of as many entries of the greatest length.
pub proof fn lemma_media_space_bound(media_uris: Seq<Seq<char>>)
    requires
        !some_uri_too_long(media_uris),
    ensures
        media_space(media_uris) <= media_uris.len() * (PREFIX_LEN + MAX_MEDIA_URI_LEN),
    decreases media_uris.len(),
{
    if media_uris.len() > 0 {
        let rest = media_uris.drop_last();
        assert forall|i: int| 0 <= i < rest.len() implies byte_len(#[trigger] rest[i])
            <= MAX_MEDIA_URI_LEN by {
            assert(rest[i] == media_uris[i]);
        }
        lemma_media_space_bound(rest);
        assert(byte_len(media_uris[media_uris.len() - 1]) <= MAX_MEDIA_URI_LEN);
        assert(media_uris.len() * (PREFIX_LEN + MAX_MEDIA_URI_LEN) == rest.len() * (PREFIX_LEN
            + MAX_MEDIA_URI_LEN) + (PREFIX_LEN + MAX_MEDIA_URI_LEN)) by (nonlinear_arith)
            requires
                media_uris.len() == rest.len() + 1,
        ;
    }
}

/// Fields that pass validation never need more than `MAX_SPACE` bytes.
pub proof fn lemma_valid_fields_fit(f: Fields)
    requires
        valid_fields(f),
    ensures
        FIXED_SPACE <= space_of(f) <= MAX_SPACE,
{
    lemma_media_space_bound(f.media_uris);
    assert(f.media_uris.len() * (PREFIX_LEN + MAX_MEDIA_URI_LEN) <= MAX_MEDIA_URIS * (PREFIX_LEN
        + MAX_MEDIA_URI_LEN)) by (nonlinear_arith)
        requires
            f.media_uris.len() <= MAX_MEDIA_URIS,
    ;
}

/// The prefix written before a text or a list: its length, or count, in
/// four little-endian bytes.
pub open spec fn prefix_bytes(n: nat) -> Seq<u8> {
    spec_u32_to_le_bytes(n as u32)
}

/// A text as it is stored: its length prefix, then its UTF-8 bytes.
pub open spec fn text_bytes(text: Seq<char>) -> Seq<u8> {
    prefix_bytes(byte_len(text)) + encode_utf8(text)
}

/// The entries of a media list as they are stored, one after the other.
pub open spec fn media_bytes(media_uris: Seq<Seq<char>>) -> Seq<u8>
    decreases media_uris.len(),
{
    if media_uris.len() == 0 {
        Seq::<u8>::empty()
    } else {
        media_bytes(media_uris.drop_last()) + text_bytes(media_uris.last())
    }
}

/// A record as it is stored, byte for byte: the integrity header, the
/// identifier, the reporter, the timestamp, the five texts, the species, the
/// media list behind its count, and the bump.
pub open spec fn stored_bytes(
    header: Seq<u8>,
    incident_id: u64,
    reporter: Seq<u8>,
    timestamp: i64,
    f: Fields,
    bump: u8,
) -> Seq<u8> {
    header + spec_u64_to_le_bytes(incident_id) + reporter + spec_u64_to_le_bytes(timestamp as u64)
        + text_bytes(f.perpetrator_name) + text_bytes(f.title) + text_bytes(f.description)
        + text_bytes(f.incident_date) + text_bytes(f.location) + seq![f.species] + prefix_bytes(
        f.media_uris.len(),
    ) + media_bytes(f.media_uris) + seq![bump]
}

/// A stored text takes exactly the bytes that the sizing counts for it.
pub proof fn lemma_text_bytes_len(text: Seq<char>)
    ensures
        text_bytes(text).len() == text_space(text),
{
    lemma_auto_spec_u32_to_from_le_bytes();
}

/// Stored media entries take exactly the bytes that the sizing counts for
/// them.
pub proof fn lemma_media_bytes_len(media_uris: Seq<Seq<char>>)
    ensures
        media_bytes(media_uris).len() == media_space(media_uris),
    decreases media_uris.len(),
{
    if media_uris.len() > 0 {
        lemma_media_bytes_len(media_uris.drop_last());
        lemma_text_bytes_len(media_uris.last());
    }
}

/// The sizing reproduces the stored layout: a record with a header of
/// `HEADER_LEN` bytes and a reporter of `IDENTITY_LEN` bytes is stored in
/// exactly `space_of` bytes, with no padding and no slack.
pub proof fn lemma_stored_bytes_len(
    header: Seq<u8>,
    incident_id: u64,
    reporter: Seq<u8>,
    timestamp: i64,
    f: Fields,
    bump: u8,
)
    requires
        header.len() == HEADER_LEN,
        reporter.len() == IDENTITY_LEN,
    ensures
        stored_bytes(header, incident_id, reporter, timestamp, f, bump).len() == space_of(f),
{
    lemma_auto_spec_u32_to_from_le_bytes();
    lemma_auto_spec_u64_to_from_le_bytes();
    lemma_text_bytes_len(f.perpetrator_name);
    lemma_text_bytes_len(f.title);
    lemma_text_bytes_len(f.description);
    lemma_text_bytes_len(f.incident_date);
    lemma_text_bytes_len(f.location);
    lemma_media_bytes_len(f.media_uris);
}

} // verus!
