//! Plain values exchanged with the web and chat front ends.

use vstd::prelude::*;
use crate::registry::{lookup_spec, PendingRegistry, PendingVerification};

verus! {

/// Settings of the whole service.
#[derive(Debug, Clone)]
pub struct Config {
    pub discord_token: String,
    pub keycloak_url: String,
    pub keycloak_realm: String,
    pub keycloak_oidc_client_id: String,
    pub keycloak_oidc_client_secret: String,
    pub keycloak_admin_client_id: String,
    pub keycloak_admin_client_secret: String,
    pub app_url: String,
    pub redis_url: String,
}

/// The query of the page that starts a verification.
#[derive(Debug, Clone)]
pub struct VerifyQuery {
    pub state: String,
}

/// Whether a token is still waiting, and for whom.
#[derive(Debug, Clone)]
pub struct VerifyStatusResponse {
    pub status: String,
    pub discord_username: Option<String>,
}

impl VerifyStatusResponse {
    /// `pending` with the requester's name for a request that was found,
    /// `not_found` otherwise.
    pub fn for_lookup(found: Option<PendingVerification>) -> (r: VerifyStatusResponse)
        ensures
            match found {
                Some(v) => r.status@ == "pending"@ && r.discord_username == Some(
                    v.discord_username,
                ),
                None => r.status@ == "not_found"@ && r.discord_username is None,
            },
    {
        match found {
            Some(v) => VerifyStatusResponse {
                status: "pending".to_owned(),
                discord_username: Some(v.discord_username),
            },
            None => VerifyStatusResponse { status: "not_found".to_owned(), discord_username: None },
        }
    }
}

/// The status of `token` now.
pub fn verify_status(registry: &PendingRegistry, token: &str) -> (r: VerifyStatusResponse)
    ensures
        exists|now: i64|
            match #[trigger] lookup_spec(registry@, token@, now) {
                Some(v) => r.status@ == "pending"@ && r.discord_username == Some(
                    v.discord_username,
                ),
                None => r.status@ == "not_found"@ && r.discord_username is None,
            },
{
    VerifyStatusResponse::for_lookup(registry.lookup(token))
}

/// The permission bit that grants everything on a server.
pub const ADMINISTRATOR: u64 = 8;

/// Whether a user may administer a server: the owner may; anyone else needs
/// the administrator bit in one of the permission sets that apply to them
/// (the everyone role's and those of their roles).
pub fn is_admin(owner_id: u64, user_id: u64, permissions: &Vec<u64>) -> (r: bool)
    ensures
        r == (owner_id == user_id || exists|i: int|
            0 <= i < permissions@.len() && (#[trigger] permissions@[i]) & ADMINISTRATOR != 0),
{
    if owner_id == user_id {
        return true;
    }
    let mut i: usize = 0;
    while i < permissions.len()
        invariant
            0 <= i <= permissions@.len(),
            forall|j: int| 0 <= j < i ==> (#[trigger] permissions@[j]) & ADMINISTRATOR == 0,
        decreases permissions@.len() - i,
    {
        if permissions[i] & ADMINISTRATOR != 0 {
            return true;
        }
        i = i + 1;
    }
    false
}

} // verus!
