use vstd::prelude::*;
use crate::address::{incident_address_from_bump, incident_address_with_bump};
use crate::error::IncidentError;
use crate::fields::{first_violation, text_len, texts, valid_fields, validate_fields, Fields};
use crate::layout::{
    lemma_media_space_monotonic, media_space, required_space, space_of, BUMP_LEN, HEADER_LEN,
    IDENTIFIER_LEN, IDENTITY_LEN, PREFIX_LEN, SPECIES_LEN, TIMESTAMP_LEN,
};

verus! {

/// One incident record, as it is kept in the registry.
///
/// The identifier, the reporter, the timestamp and the bump are written once,
/// when the record is created. Everything else is replaced as a whole by an
/// update.
#[derive(Clone, Debug)]
pub struct Incident {
    /// Identifier chosen by the reporter, unique among that reporter's records.
    pub incident_id: u64,
    /// Identity of the reporter who created the record and owns it.
    pub reporter: [u8; 32],
    /// Host time, in seconds, at which the record was created.
    pub timestamp: i64,
    /// Name of the perpetrator.
    pub perpetrator_name: String,
    /// Title of the incident.
    pub title: String,
    /// Full description of what happened.
    pub description: String,
    /// Date of the incident, by convention "YYYY-MM-DD".
    pub incident_date: String,
    /// Where the incident happened.
    pub location: String,
    /// Species of the animal: 0 is a dog, 1 a cat, 2 any other.
    pub species: u8,
    /// References to media kept elsewhere, in the order they were given.
    pub media_uris: Vec<String>,
    /// Disambiguation byte found when the record's address was derived.
    pub bump: u8,
}

/// An incident record as mathematical values.
pub struct IncidentView {
    pub incident_id: u64,
    pub reporter: Seq<u8>,
    pub timestamp: i64,
    pub fields: Fields,
    pub bump: u8,
}

impl View for Incident {
    type V = IncidentView;

    open spec fn view(&self) -> IncidentView {
        IncidentView {
            incident_id: self.incident_id,
            reporter: self.reporter@,
            timestamp: self.timestamp,
            fields: Fields {
                perpetrator_name: self.perpetrator_name@,
                title: self.title@,
                description: self.description@,
                incident_date: self.incident_date@,
                location: self.location@,
                species: self.species,
                media_uris: texts(self.media_uris@),
            },
            bump: self.bump,
        }
    }
}

/// What an update of `record` asked by `caller` with the fields `f` leaves
/// behind, and what it answers. The caller is checked first; then the
/// fields; only then is anything replaced, and then all seven fields at once.
pub open spec fn update_record(record: IncidentView, caller: Seq<u8>, f: Fields) -> (
    IncidentView,
    Result<(), IncidentError>,
) {
    if caller != record.reporter {
        (record, Err(IncidentError::UnauthorizedReporter))
    } else {
        match first_violation(f) {
            Some(e) => (record, Err(e)),
            None => (IncidentView { fields: f, ..record }, Ok(())),
        }
    }
}

/// Whether two identities are the same, byte for byte.
pub fn same_identity(a: &[u8; 32], b: &[u8; 32]) -> (same: bool)
    ensures
        same == (a@ == b@),
{
    let mut i: usize = 0;
    while i < 32
        invariant
            i <= 32,
            forall|j: int| 0 <= j < i ==> a@[j] == b@[j],
        decreases 32 - i,
    {
        if a[i] != b[i] {
            return false;
        }
        i += 1;
    }
    assert(a@ =~= b@);
    true
}

impl Incident {
    /// Computes the exact number of bytes a record with these texts and this
    /// media list takes in storage. The same computation sizes a new slot and
    /// resizes an existing one.
    pub fn space(
        perpetrator_name: &str,
        title: &str,
        description: &str,
        incident_date: &str,
        location: &str,
        media_uris: &[String],
    ) -> (n: usize)
        requires
            required_space(
                perpetrator_name@,
                title@,
                description@,
                incident_date@,
                location@,
                texts(media_uris@),
            ) <= usize::MAX,
        ensures
            n == required_space(
                perpetrator_name@,
                title@,
                description@,
                incident_date@,
                location@,
                texts(media_uris@),
            ),
    {
        let ghost uris = texts(media_uris@);
        let mut media: usize = 0;
        let mut i: usize = 0;
        while i < media_uris.len()
            invariant
                i <= media_uris.len(),
                uris == texts(media_uris@),
                media == media_space(uris.take(i as int)),
                media_space(uris) <= usize::MAX,
            decreases media_uris.len() - i,
        {
            proof {
                lemma_media_space_monotonic(uris, i + 1, uris.len() as int);
                assert(uris.take(uris.len() as int) =~= uris);
                assert(uris.take(i + 1).drop_last() =~= uris.take(i as int));
            }
            media = media + PREFIX_LEN + text_len(media_uris[i].as_str());
            i += 1;
        }
        proof {
            assert(uris.take(i as int) =~= uris);
        }
        HEADER_LEN + IDENTIFIER_LEN + IDENTITY_LEN + TIMESTAMP_LEN + PREFIX_LEN + text_len(
            perpetrator_name,
        ) + PREFIX_LEN + text_len(title) + PREFIX_LEN + text_len(description) + PREFIX_LEN
            + text_len(incident_date) + PREFIX_LEN + text_len(location) + SPECIES_LEN + PREFIX_LEN
            + media + BUMP_LEN
    }

    /// Builds a new record from a request, or reports the first constraint
    /// that its fields break. The reporter, the timestamp and the bump are
    /// taken as given and stay with the record for good.
    pub fn create(
        incident_id: u64,
        reporter: [u8; 32],
        timestamp: i64,
        bump: u8,
        perpetrator_name: String,
        title: String,
        description: String,
        incident_date: String,
        location: String,
        species: u8,
        media_uris: Vec<String>,
    ) -> (r: Result<Incident, IncidentError>)
        ensures
            match r {
                Ok(incident) => incident@ == (IncidentView {
                    incident_id,
                    reporter: reporter@,
                    timestamp,
                    fields: (Fields {
                        perpetrator_name: perpetrator_name@,
                        title: title@,
                        description: description@,
                        incident_date: incident_date@,
                        location: location@,
                        species,
                        media_uris: texts(media_uris@),
                    }),
                    bump,
                }) && valid_fields(incident@.fields),
                Err(e) => first_violation(
                    (Fields {
                        perpetrator_name: perpetrator_name@,
                        title: title@,
                        description: description@,
                        incident_date: incident_date@,
                        location: location@,
                        species,
                        media_uris: texts(media_uris@),
                    }),
                ) == Some(e),
            },
    {
        match validate_fields(
            perpetrator_name.as_str(),
            title.as_str(),
            description.as_str(),
            incident_date.as_str(),
            location.as_str(),
            species,
            media_uris.as_slice(),
        ) {
            Err(e) => Err(e),
            Ok(()) => Ok(
                Incident {
                    incident_id,
                    reporter,
                    timestamp,
                    perpetrator_name,
                    title,
                    description,
                    incident_date,
                    location,
                    species,
                    media_uris,
                    bump,
                },
            ),
        }
    }

    /// Whether `caller` is the reporter who owns this record: the only
    /// identity allowed to update it.
    pub fn authorize(&self, caller: &[u8; 32]) -> (r: Result<(), IncidentError>)
        ensures
            r == if caller@ == self@.reporter {
                Ok::<(), IncidentError>(())
            } else {
                Err::<(), IncidentError>(IncidentError::UnauthorizedReporter)
            },
    {
        if same_identity(&self.reporter, caller) {
            Ok(())
        } else {
            Err(IncidentError::UnauthorizedReporter)
        }
    }

    /// Replaces the seven replaceable fields of the record at the request of
    /// `caller`. The caller is checked before the fields are looked at; a
    /// rejected request changes nothing. The identifier, the reporter, the
    /// timestamp and the bump are never touched.
    pub fn update(
        &mut self,
        caller: &[u8; 32],
        perpetrator_name: String,
        title: String,
        description: String,
        incident_date: String,
        location: String,
        species: u8,
        media_uris: Vec<String>,
    ) -> (r: Result<(), IncidentError>)
        ensures
            (final(self)@, r) == update_record(
                old(self)@,
                caller@,
                (Fields {
                    perpetrator_name: perpetrator_name@,
                    title: title@,
                    description: description@,
                    incident_date: incident_date@,
                    location: location@,
                    species,
                    media_uris: texts(media_uris@),
                }),
            ),
            r is Err ==> *final(self) == *old(self),
    {
        if !same_identity(&self.reporter, caller) {
            return Err(IncidentError::UnauthorizedReporter);
        }
        match validate_fields(
            perpetrator_name.as_str(),
            title.as_str(),
            description.as_str(),
            incident_date.as_str(),
            location.as_str(),
            species,
            media_uris.as_slice(),
        ) {
            Err(e) => Err(e),
            Ok(()) => {
                self.perpetrator_name = perpetrator_name;
                self.title = title;
                self.description = description;
                self.incident_date = incident_date;
                self.location = location;
                self.species = species;
                self.media_uris = media_uris;
                Ok(())
            },
        }
    }

    /// Derives the address at which this record lives from its reporter, its
    /// identifier and the bump kept with it, without a search.
    pub fn address(&self) -> (created: Option<[u8; 32]>)
        ensures
            match created {
                Some(address) => incident_address_with_bump(
                    self@.reporter,
                    self@.incident_id,
                    self@.bump,
                ) == Some(address@),
                None => incident_address_with_bump(self@.reporter, self@.incident_id, self@.bump)
                    is None,
            },
    {
        incident_address_from_bump(&self.reporter, self.incident_id, self.bump)
    }

    /// Bytes this record takes in storage.
    pub fn required_space(&self) -> (n: usize)
        requires
            space_of(self@.fields) <= usize::MAX,
        ensures
            n == space_of(self@.fields),
    {
        Incident::space(
            self.perpetrator_name.as_str(),
            self.title.as_str(),
            self.description.as_str(),
            self.incident_date.as_str(),
            self.location.as_str(),
            self.media_uris.as_slice(),
        )
    }
}

} // verus!
