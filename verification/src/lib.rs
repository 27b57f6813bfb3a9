//! A registry of incident records.
//!
//! Each record is owned by the reporter who created it, lives at an address
//! derived from the reporter's identity and an identifier, and can be updated
//! by that reporter alone. The registry validates the fields of every
//! request, sizes each storage slot to exactly what its record needs, and
//! leaves everything as it was when it rejects a request.
//!
//! - [`fields`]: the limits on the fields of a request, and their validation.
//! - [`layout`]: the stored layout of a record and the space it takes.
//! - [`address`]: the derivation of a record's address.
//! - [`record`]: a single record, its creation and its update.
//! - [`store`]: the registry and the two requests it serves.
//! - [`laws`]: what holds of the registry whatever is asked of it.
//! - [`error`]: why a request is rejected.

pub mod address;
pub mod error;
pub mod fields;
pub mod laws;
pub mod layout;
pub mod record;
pub mod store;

pub use address::{find_incident_address, incident_address_from_bump};
pub use error::IncidentError;
pub use fields::validate_fields;
pub use record::Incident;
pub use store::{
    create_incident, create_incident_at, try_create_incident, update_incident, CreateIncident,
    RecordStore, UpdateIncident,
};
