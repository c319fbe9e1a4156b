//! Putting the pieces together from connection settings.

use vstd::prelude::*;
use crate::apis::garoon::GaroonGetEventsClient;
use crate::apis::garoon_rest::{GaroonAuth, GaroonRestClient};
use crate::services::calendar_sync_service::{CalendarSyncService, InvalidEventPolicy};

verus! {

/// Why the connection settings cannot be used.
#[derive(Clone, Copy, Debug, PartialEq, Eq, Structural)]
pub enum ConfigurationError {
    /// No base address was given.
    MissingBaseUrl,
    /// No user was given.
    MissingUserId,
    /// No password was given.
    MissingPassword,
    /// User and password together are too long to be encoded.
    CredentialsTooLong,
}

/// What the settings must give: the first thing found wrong with them, in
/// the order base address, user, password, length; else a client for them.
pub open spec fn configured(
    base_url: Option<String>,
    user_id: Option<String>,
    password: Option<String>,
    outcome: Result<GaroonRestClient, ConfigurationError>,
) -> bool {
    match (base_url, user_id, password) {
        (None, _, _) => outcome == Err::<GaroonRestClient, ConfigurationError>(
            ConfigurationError::MissingBaseUrl,
        ),
        (Some(_), None, _) => outcome == Err::<GaroonRestClient, ConfigurationError>(
            ConfigurationError::MissingUserId,
        ),
        (Some(_), Some(_), None) => outcome == Err::<GaroonRestClient, ConfigurationError>(
            ConfigurationError::MissingPassword,
        ),
        (Some(base), Some(user), Some(secret)) => {
            let auth = GaroonAuth { user_id: user, password: secret };
            if auth.encodable() {
                &&& outcome matches Ok(client)
                &&& client.base() == base@
                &&& client.account() == auth
            } else {
                outcome == Err::<GaroonRestClient, ConfigurationError>(
                    ConfigurationError::CredentialsTooLong,
                )
            }
        },
    }
}

/// Makes the REST client from the connection settings, each of which may
/// be missing.
pub fn initialize_rest_clients(
    base_url: Option<String>,
    user_id: Option<String>,
    password: Option<String>,
) -> (r: Result<GaroonRestClient, ConfigurationError>)
    ensures
        configured(base_url, user_id, password, r),
{
    let base = match base_url {
        Some(text) => text,
        None => { return Err(ConfigurationError::MissingBaseUrl); },
    };
    let user = match user_id {
        Some(text) => text,
        None => { return Err(ConfigurationError::MissingUserId); },
    };
    let secret = match password {
        Some(text) => text,
        None => { return Err(ConfigurationError::MissingPassword); },
    };
    let auth = GaroonAuth { user_id: user, password: secret };
    if !auth.is_encodable() {
        return Err(ConfigurationError::CredentialsTooLong);
    }
    Ok(GaroonRestClient::new(base, auth))
}

/// Makes the sync service around `client`. It gives up on a batch that
/// holds an event that cannot be taken over.
pub fn initialize_service<G: GaroonGetEventsClient>(client: G) -> (r: Result<
    CalendarSyncService<G>,
    ConfigurationError,
>)
    ensures
        r matches Ok(service) && service.client() == client && service.policy()
            == InvalidEventPolicy::FailBatch,
{
    Ok(CalendarSyncService::new(client))
}

} // verus!
