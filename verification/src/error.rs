use vstd::prelude::*;

verus! {

/// Failures of the tapplet server supervisor.
#[derive(Debug)]
pub enum TappletServerError {
    /// Binding the TCP listener failed; carries the requested address.
    BindPortError { port: String },
    /// The listener bound, but its local address could not be read.
    FailedToObtainLocalAddress,
    /// The accept loop died unexpectedly.
    FailedToStart,
}

/// Failures of the catalog store, each carrying the affected entity's
/// display name for diagnostics.
#[derive(Debug)]
pub enum DatabaseError {
    FailedToRetrieveData { entity_name: String },
    FailedToCreate { entity_name: String },
    FailedToUpdate { entity_name: String },
    FailedToDelete { entity_name: String },
}

/// The library's error taxonomy.
#[derive(Debug)]
pub enum Error {
    TappletServerError(TappletServerError),
    TappletConfigNotFound,
    JsonParsingError(String),
    DatabaseError(DatabaseError),
}

pub open spec fn is_retrieve_error(e: Error, name: Seq<char>) -> bool {
    e matches Error::DatabaseError(DatabaseError::FailedToRetrieveData { entity_name })
        && entity_name@ == name
}

pub open spec fn is_create_error(e: Error, name: Seq<char>) -> bool {
    e matches Error::DatabaseError(DatabaseError::FailedToCreate { entity_name })
        && entity_name@ == name
}

pub open spec fn is_update_error(e: Error, name: Seq<char>) -> bool {
    e matches Error::DatabaseError(DatabaseError::FailedToUpdate { entity_name })
        && entity_name@ == name
}

pub open spec fn is_delete_error(e: Error, name: Seq<char>) -> bool {
    e matches Error::DatabaseError(DatabaseError::FailedToDelete { entity_name })
        && entity_name@ == name
}

pub fn retrieve_error(entity_name: &str) -> (e: Error)
    ensures
        is_retrieve_error(e, entity_name@),
{
    Error::DatabaseError(DatabaseError::FailedToRetrieveData { entity_name: entity_name.to_owned() })
}

pub fn create_error(entity_name: &str) -> (e: Error)
    ensures
        is_create_error(e, entity_name@),
{
    Error::DatabaseError(DatabaseError::FailedToCreate { entity_name: entity_name.to_owned() })
}

pub fn update_error(entity_name: &str) -> (e: Error)
    ensures
        is_update_error(e, entity_name@),
{
    Error::DatabaseError(DatabaseError::FailedToUpdate { entity_name: entity_name.to_owned() })
}

pub fn delete_error(entity_name: &str) -> (e: Error)
    ensures
        is_delete_error(e, entity_name@),
{
    Error::DatabaseError(DatabaseError::FailedToDelete { entity_name: entity_name.to_owned() })
}

impl Error {
    /// A short diagnostic label for the error, for logs and user messages.
    pub fn describe(&self) -> (r: &'static str)
        ensures
            r@ == match self {
                Error::TappletServerError(TappletServerError::BindPortError { .. }) => "failed to bind port"@,
                Error::TappletServerError(TappletServerError::FailedToObtainLocalAddress) => "failed to obtain local address"@,
                Error::TappletServerError(TappletServerError::FailedToStart) => "failed to start server"@,
                Error::TappletConfigNotFound => "tapplet config file not found"@,
                Error::JsonParsingError(..) => "failed to parse tapplet config"@,
                Error::DatabaseError(DatabaseError::FailedToRetrieveData { .. }) => "failed to retrieve data"@,
                Error::DatabaseError(DatabaseError::FailedToCreate { .. }) => "failed to create record"@,
                Error::DatabaseError(DatabaseError::FailedToUpdate { .. }) => "failed to update record"@,
                Error::DatabaseError(DatabaseError::FailedToDelete { .. }) => "failed to delete record"@,
            },
    {
        match self {
            Error::TappletServerError(TappletServerError::BindPortError { .. }) => "failed to bind port",
            Error::TappletServerError(TappletServerError::FailedToObtainLocalAddress) => "failed to obtain local address",
            Error::TappletServerError(TappletServerError::FailedToStart) => "failed to start server",
            Error::TappletConfigNotFound => "tapplet config file not found",
            Error::JsonParsingError(..) => "failed to parse tapplet config",
            Error::DatabaseError(DatabaseError::FailedToRetrieveData { .. }) => "failed to retrieve data",
            Error::DatabaseError(DatabaseError::FailedToCreate { .. }) => "failed to create record",
            Error::DatabaseError(DatabaseError::FailedToUpdate { .. }) => "failed to update record",
            Error::DatabaseError(DatabaseError::FailedToDelete { .. }) => "failed to delete record",
        }
    }
}

} // verus!
