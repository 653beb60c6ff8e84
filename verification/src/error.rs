//! Errors of the operator's own logic.

use vstd::prelude::*;
use crate::text::{concat2, string_of};

verus! {

/// What can go wrong in reconciliation, apart from the failures of the
/// Kubernetes and Sonarr clients themselves.
pub enum Error {
    /// The Sonarr API returned an error or an unexpected answer
    SonarrApiError(String),
    /// A required field of an object is missing
    MissingObjectKey(&'static str),
    /// The reference to the Sonarr instance is missing
    MissingSonarrRef(String),
    /// The API key of the Sonarr instance cannot be read
    MissingApiCredentials,
    /// The referenced Sonarr instance does not exist
    SonarrInstanceNotFound(String),
    /// The referenced Sonarr instance is not ready
    SonarrInstanceNotReady(String),
    /// The configuration is invalid
    InvalidConfiguration(String),
    /// Any other failure
    Other(String),
}

impl Error {
    /// The error for a missing object field.
    pub fn missing_object_key(key: &'static str) -> (e: Error)
        ensures
            e == Error::MissingObjectKey(key),
    {
        Error::MissingObjectKey(key)
    }

    /// The text of the error, as logs and statuses show it.
    pub fn message(&self) -> (s: String)
        ensures
            s@ == match *self {
                Error::SonarrApiError(m) => "Sonarr API error: "@ + m@,
                Error::MissingObjectKey(k) => "Missing object key: "@ + k@,
                Error::MissingSonarrRef(m) => "Missing Sonarr reference: "@ + m@,
                Error::MissingApiCredentials => "Missing Sonarr API credentials"@,
                Error::SonarrInstanceNotFound(m) => "Sonarr instance not found: "@ + m@,
                Error::SonarrInstanceNotReady(m) => "Sonarr instance not ready: "@ + m@,
                Error::InvalidConfiguration(m) => "Invalid configuration: "@ + m@,
                Error::Other(m) => m@,
            },
    {
        match self {
            Error::SonarrApiError(m) => concat2("Sonarr API error: ", m.as_str()),
            Error::MissingObjectKey(k) => concat2("Missing object key: ", k),
            Error::MissingSonarrRef(m) => concat2("Missing Sonarr reference: ", m.as_str()),
            Error::MissingApiCredentials => string_of("Missing Sonarr API credentials"),
            Error::SonarrInstanceNotFound(m) => concat2("Sonarr instance not found: ", m.as_str()),
            Error::SonarrInstanceNotReady(m) => concat2("Sonarr instance not ready: ", m.as_str()),
            Error::InvalidConfiguration(m) => concat2("Invalid configuration: ", m.as_str()),
            Error::Other(m) => m.clone(),
        }
    }
}

} // verus!
