use vstd::prelude::*;

verus! {

/// Why a create or update request was rejected.
///
/// Every error is raised before anything is written: a rejected request
/// leaves the registry exactly as it was.
#[derive(Clone, Copy, Debug, PartialEq, Eq, Structural)]
pub enum IncidentError {
    /// The perpetrator name is longer than its limit.
    PerpetratorNameTooLong,
    /// The title is longer than its limit.
    TitleTooLong,
    /// The description is longer than its limit.
    DescriptionTooLong,
    /// The incident date is longer than its limit.
    DateTooLong,
    /// The location is longer than its limit.
    LocationTooLong,
    /// The species code is not one of the known codes.
    InvalidSpecies,
    /// The media list has more entries than allowed.
    TooManyMediaUris,
    /// An entry of the media list is longer than its limit.
    MediaUriTooLong,
    /// The caller is not the reporter who created the record.
    UnauthorizedReporter,
    /// A record already lives at the address the request derives.
    DuplicateIncident,
}

impl IncidentError {
    /// The message shown to a caller for this error.
    pub fn message(&self) -> (text: &'static str)
        ensures
            text@ == self.message_text(),
    {
        match self {
            IncidentError::PerpetratorNameTooLong => "Perpetrator name exceeds maximum length (100 chars)",
            IncidentError::TitleTooLong => "Title exceeds maximum length (200 chars)",
            IncidentError::DescriptionTooLong => "Description exceeds maximum length (2000 chars)",
            IncidentError::DateTooLong => "Date exceeds maximum length (10 chars)",
            IncidentError::LocationTooLong => "Location exceeds maximum length (200 chars)",
            IncidentError::InvalidSpecies => "Invalid species value (must be 0, 1, or 2)",
            IncidentError::TooManyMediaUris => "Too many media URIs (maximum 10)",
            IncidentError::MediaUriTooLong => "Media URI exceeds maximum length (128 chars)",
            IncidentError::UnauthorizedReporter => "Only the original reporter can update this incident",
            IncidentError::DuplicateIncident => "An incident with this identifier already exists for this reporter",
        }
    }

    /// The message of each error, as a sequence of characters.
    pub open spec fn message_text(&self) -> Seq<char> {
        match self {
            IncidentError::PerpetratorNameTooLong => "Perpetrator name exceeds maximum length (100 chars)"@,
            IncidentError::TitleTooLong => "Title exceeds maximum length (200 chars)"@,
            IncidentError::DescriptionTooLong => "Description exceeds maximum length (2000 chars)"@,
            IncidentError::DateTooLong => "Date exceeds maximum length (10 chars)"@,
            IncidentError::LocationTooLong => "Location exceeds maximum length (200 chars)"@,
            IncidentError::InvalidSpecies => "Invalid species value (must be 0, 1, or 2)"@,
            IncidentError::TooManyMediaUris => "Too many media URIs (maximum 10)"@,
            IncidentError::MediaUriTooLong => "Media URI exceeds maximum length (128 chars)"@,
            IncidentError::UnauthorizedReporter => "Only the original reporter can update this incident"@,
            IncidentError::DuplicateIncident => "An incident with this identifier already exists for this reporter"@,
        }
    }
}

} // verus!
