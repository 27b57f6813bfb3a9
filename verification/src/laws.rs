use vstd::prelude::*;
use crate::address::{derived_for, incident_address_with_bump};
use crate::error::IncidentError;
use crate::fields::{
    byte_len, first_violation, some_uri_too_long, valid_fields, Fields, MAX_DATE_LEN,
    MAX_DESCRIPTION_LEN, MAX_LOCATION_LEN, MAX_MEDIA_URIS, MAX_PERPETRATOR_NAME_LEN, MAX_SPECIES,
    MAX_TITLE_LEN,
};
use crate::layout::space_of;
use crate::record::IncidentView;
use crate::store::{consistent, create_step, slot_consistent, update_step, SlotView};

verus! {

/// Whether the five texts of the fields are within their limits.
pub open spec fn texts_within_limits(f: Fields) -> bool {
    &&& byte_len(f.perpetrator_name) <= MAX_PERPETRATOR_NAME_LEN
    &&& byte_len(f.title) <= MAX_TITLE_LEN
    &&& byte_len(f.description) <= MAX_DESCRIPTION_LEN
    &&& byte_len(f.incident_date) <= MAX_DATE_LEN
    &&& byte_len(f.location) <= MAX_LOCATION_LEN
}

/// Whether the media list of the fields is within its limits.
pub open spec fn media_within_limits(f: Fields) -> bool {
    &&& f.media_uris.len() <= MAX_MEDIA_URIS
    &&& !some_uri_too_long(f.media_uris)
}

/// Fields are valid exactly when every text, the species and the media list
/// are within their limits. A text of exactly the greatest length is within
/// its limit.
pub proof fn lemma_valid_fields(f: Fields)
    ensures
        valid_fields(f) <==> texts_within_limits(f) && f.species <= MAX_SPECIES
            && media_within_limits(f),
{
}

/// Each error comes exactly when its own constraint is the first one
/// broken: a text longer than its limit by one byte or more gives that
/// text's error once the texts before it are within theirs.
pub proof fn lemma_first_violation(f: Fields)
    ensures
        first_violation(f) == Some(IncidentError::PerpetratorNameTooLong) <==> byte_len(
            f.perpetrator_name,
        ) > MAX_PERPETRATOR_NAME_LEN,
        first_violation(f) == Some(IncidentError::TitleTooLong) <==> byte_len(f.perpetrator_name)
            <= MAX_PERPETRATOR_NAME_LEN && byte_len(f.title) > MAX_TITLE_LEN,
        first_violation(f) == Some(IncidentError::DescriptionTooLong) <==> byte_len(
            f.perpetrator_name,
        ) <= MAX_PERPETRATOR_NAME_LEN && byte_len(f.title) <= MAX_TITLE_LEN && byte_len(
            f.description,
        ) > MAX_DESCRIPTION_LEN,
        first_violation(f) == Some(IncidentError::DateTooLong) <==> byte_len(f.perpetrator_name)
            <= MAX_PERPETRATOR_NAME_LEN && byte_len(f.title) <= MAX_TITLE_LEN && byte_len(
            f.description,
        ) <= MAX_DESCRIPTION_LEN && byte_len(f.incident_date) > MAX_DATE_LEN,
        first_violation(f) == Some(IncidentError::LocationTooLong) <==> byte_len(
            f.perpetrator_name,
        ) <= MAX_PERPETRATOR_NAME_LEN && byte_len(f.title) <= MAX_TITLE_LEN && byte_len(
            f.description,
        ) <= MAX_DESCRIPTION_LEN && byte_len(f.incident_date) <= MAX_DATE_LEN && byte_len(
            f.location,
        ) > MAX_LOCATION_LEN,
        first_violation(f) == Some(IncidentError::InvalidSpecies) <==> texts_within_limits(f)
            && f.species > MAX_SPECIES,
        first_violation(f) == Some(IncidentError::TooManyMediaUris) <==> texts_within_limits(f)
            && f.species <= MAX_SPECIES && f.media_uris.len() > MAX_MEDIA_URIS,
        first_violation(f) == Some(IncidentError::MediaUriTooLong) <==> texts_within_limits(f)
            && f.species <= MAX_SPECIES && f.media_uris.len() <= MAX_MEDIA_URIS
            && some_uri_too_long(f.media_uris),
        first_violation(f) != Some(IncidentError::UnauthorizedReporter),
        first_violation(f) != Some(IncidentError::DuplicateIncident),
{
}

/// A species code above the highest known code is always rejected, whatever
/// the other fields hold and whoever asks, by create and by update alike.
/// Codes 0, 1 and 2 are accepted: with them, fields whose texts and media
/// list are within their limits are valid.
pub proof fn lemma_species(
    registry: Map<Seq<u8>, SlotView>,
    reporter: Seq<u8>,
    timestamp: i64,
    incident_id: u64,
    f: Fields,
    address: Seq<u8>,
    bump: u8,
)
    ensures
        f.species > MAX_SPECIES ==> create_step(
            registry,
            reporter,
            timestamp,
            incident_id,
            f,
            address,
            bump,
        ) == (registry, Err::<(), IncidentError>(first_violation(f)->0)),
        f.species > MAX_SPECIES ==> update_step(registry, address, reporter, f).0 == registry
            && update_step(registry, address, reporter, f).1 is Err,
        f.species > MAX_SPECIES && texts_within_limits(f) ==> first_violation(f) == Some(
            IncidentError::InvalidSpecies,
        ),
        f.species <= MAX_SPECIES && texts_within_limits(f) && media_within_limits(f)
            ==> valid_fields(f),
{
}

/// A rejected request changes nothing: whenever create or update answers
/// with an error, the registry is what it was.
pub proof fn lemma_rejection_changes_nothing(
    registry: Map<Seq<u8>, SlotView>,
    reporter: Seq<u8>,
    timestamp: i64,
    incident_id: u64,
    f: Fields,
    address: Seq<u8>,
    bump: u8,
)
    ensures
        create_step(registry, reporter, timestamp, incident_id, f, address, bump).1 is Err
            ==> create_step(registry, reporter, timestamp, incident_id, f, address, bump).0
            == registry,
        update_step(registry, address, reporter, f).1 is Err ==> update_step(
            registry,
            address,
            reporter,
            f,
        ).0 == registry,
        !valid_fields(f) ==> create_step(
            registry,
            reporter,
            timestamp,
            incident_id,
            f,
            address,
            bump,
        ).1 is Err && update_step(registry, address, reporter, f).1 is Err,
{
}

/// After a create with valid fields at a free address, the record read at
/// that address holds exactly the fields of the request, the caller as its
/// reporter, the request's timestamp and the derived bump, in a slot of
/// exactly the size those fields need; every other record is as it was.
pub proof fn lemma_create_then_read(
    registry: Map<Seq<u8>, SlotView>,
    reporter: Seq<u8>,
    timestamp: i64,
    incident_id: u64,
    f: Fields,
    address: Seq<u8>,
    bump: u8,
)
    requires
        valid_fields(f),
        !registry.contains_key(address),
    ensures
        ({
            let (after, answer) = create_step(
                registry,
                reporter,
                timestamp,
                incident_id,
                f,
                address,
                bump,
            );
            &&& answer is Ok
            &&& after.contains_key(address)
            &&& after[address].record == (IncidentView {
                incident_id,
                reporter,
                timestamp,
                fields: f,
                bump,
            })
            &&& after[address].size == space_of(f)
            &&& forall|other: Seq<u8>|
                other != address ==> (#[trigger] after.contains_key(other)
                    <==> registry.contains_key(other)) && after[other] == registry[other]
        }),
{
}

/// A create at an address that already holds a record always fails and
/// leaves that record, and every other, as it was. With valid fields the
/// error is the duplicate error; with invalid fields it is the error of the
/// first broken constraint, since fields are validated first.
pub proof fn lemma_duplicate_rejected(
    registry: Map<Seq<u8>, SlotView>,
    reporter: Seq<u8>,
    timestamp: i64,
    incident_id: u64,
    f: Fields,
    address: Seq<u8>,
    bump: u8,
)
    requires
        registry.contains_key(address),
    ensures
        ({
            let (after, answer) = create_step(
                registry,
                reporter,
                timestamp,
                incident_id,
                f,
                address,
                bump,
            );
            &&& after == registry
            &&& answer is Err
            &&& valid_fields(f) ==> answer == Err::<(), IncidentError>(
                IncidentError::DuplicateIncident,
            )
            &&& !valid_fields(f) ==> answer == Err::<(), IncidentError>(first_violation(f)->0)
        }),
{
}

/// An update asked by anyone but the record's reporter changes nothing and
/// fails as unauthorized, whether or not the fields are valid.
pub proof fn lemma_unauthorized_update(
    registry: Map<Seq<u8>, SlotView>,
    address: Seq<u8>,
    caller: Seq<u8>,
    f: Fields,
)
    requires
        registry.contains_key(address),
        caller != registry[address].record.reporter,
    ensures
        update_step(registry, address, caller, f) == (
            registry,
            Err::<(), IncidentError>(IncidentError::UnauthorizedReporter),
        ),
{
}

/// An update by the record's reporter with valid fields succeeds: the
/// record then holds the new fields, and its slot has exactly the size that
/// the new fields need.
pub proof fn lemma_update_resizes(
    registry: Map<Seq<u8>, SlotView>,
    address: Seq<u8>,
    caller: Seq<u8>,
    f: Fields,
)
    requires
        registry.contains_key(address),
        caller == registry[address].record.reporter,
        valid_fields(f),
    ensures
        ({
            let (after, answer) = update_step(registry, address, caller, f);
            &&& answer is Ok
            &&& after.contains_key(address)
            &&& after[address].record.fields == f
            &&& after[address].size == space_of(f)
        }),
{
}

/// No update, accepted or not, creates or removes a record, touches another
/// record, or changes a record's identifier, reporter, timestamp or bump.
pub proof fn lemma_update_keeps_write_once_parts(
    registry: Map<Seq<u8>, SlotView>,
    address: Seq<u8>,
    caller: Seq<u8>,
    f: Fields,
)
    requires
        registry.contains_key(address),
    ensures
        ({
            let after = update_step(registry, address, caller, f).0;
            &&& after.dom() == registry.dom()
            &&& after[address].record.incident_id == registry[address].record.incident_id
            &&& after[address].record.reporter == registry[address].record.reporter
            &&& after[address].record.timestamp == registry[address].record.timestamp
            &&& after[address].record.bump == registry[address].record.bump
            &&& forall|other: Seq<u8>| other != address ==> #[trigger] after[other] == registry[other]
        }),
{
    let after = update_step(registry, address, caller, f).0;
    assert(after.dom() =~= registry.dom());
}

/// No create, accepted or not, removes or changes a record that exists.
pub proof fn lemma_create_keeps_records(
    registry: Map<Seq<u8>, SlotView>,
    reporter: Seq<u8>,
    timestamp: i64,
    incident_id: u64,
    f: Fields,
    address: Seq<u8>,
    bump: u8,
)
    ensures
        ({
            let after = create_step(registry, reporter, timestamp, incident_id, f, address, bump).0;
            forall|other: Seq<u8>| #[trigger]
                registry.contains_key(other) ==> after.contains_key(other) && after[other]
                    == registry[other]
        }),
{
}

/// Create and update keep a registry consistent: afterwards every record
/// still has valid fields, a slot of exactly the size it needs, and the
/// address derived from its reporter and identifier.
pub proof fn lemma_steps_keep_consistency(
    registry: Map<Seq<u8>, SlotView>,
    reporter: Seq<u8>,
    timestamp: i64,
    incident_id: u64,
    f: Fields,
    address: Seq<u8>,
    bump: u8,
)
    requires
        consistent(registry),
    ensures
        derived_for(reporter, incident_id, address, bump) ==> consistent(
            create_step(registry, reporter, timestamp, incident_id, f, address, bump).0,
        ),
        registry.contains_key(address) ==> consistent(
            update_step(registry, address, reporter, f).0,
        ),
{
    if derived_for(reporter, incident_id, address, bump) {
        let after = create_step(registry, reporter, timestamp, incident_id, f, address, bump).0;
        assert forall|a: Seq<u8>| #[trigger] after.contains_key(a) implies slot_consistent(
            a,
            after[a],
        ) by {
            if a != address || after == registry {
                assert(registry.contains_key(a));
            }
        }
    }
    if registry.contains_key(address) {
        let after = update_step(registry, address, reporter, f).0;
        assert forall|a: Seq<u8>| #[trigger] after.contains_key(a) implies slot_consistent(
            a,
            after[a],
        ) by {
            assert(registry.contains_key(a));
        }
    }
}

/// Requests on records at different addresses do not interfere: two
/// updates of different records give the same answers and leave the same
/// registry in either order.
pub proof fn lemma_updates_commute(
    registry: Map<Seq<u8>, SlotView>,
    first: Seq<u8>,
    first_caller: Seq<u8>,
    first_fields: Fields,
    second: Seq<u8>,
    second_caller: Seq<u8>,
    second_fields: Fields,
)
    requires
        registry.contains_key(first),
        registry.contains_key(second),
        first != second,
    ensures
        ({
            let (after_first, first_answer) = update_step(
                registry,
                first,
                first_caller,
                first_fields,
            );
            let (after_second, second_answer) = update_step(
                registry,
                second,
                second_caller,
                second_fields,
            );
            &&& update_step(after_first, second, second_caller, second_fields).1 == second_answer
            &&& update_step(after_second, first, first_caller, first_fields).1 == first_answer
            &&& update_step(after_first, second, second_caller, second_fields).0 == update_step(
                after_second,
                first,
                first_caller,
                first_fields,
            ).0
        }),
{
    let after_first = update_step(registry, first, first_caller, first_fields).0;
    let after_second = update_step(registry, second, second_caller, second_fields).0;
    assert(update_step(after_first, second, second_caller, second_fields).0 =~= update_step(
        after_second,
        first,
        first_caller,
        first_fields,
    ).0);
}

/// The bump kept with a record leads back to where the record lives: in a
/// consistent registry, the address derived without a search from a
/// record's reporter, identifier and bump is the address of its slot.
pub proof fn lemma_bump_leads_to_address(registry: Map<Seq<u8>, SlotView>, address: Seq<u8>)
    requires
        consistent(registry),
        registry.contains_key(address),
    ensures
        incident_address_with_bump(
            registry[address].record.reporter,
            registry[address].record.incident_id,
            registry[address].record.bump,
        ) == Some(address),
{
}

} // verus!
