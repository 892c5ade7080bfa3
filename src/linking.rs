//! The linking state machine: from a pending token and an authenticated
//! single-sign-on subject to a linked account or a final failure.
//!
//! The caller fetches the subject's federated identities before each step and
//! hands them in. A step that links consumes the token and returns the
//! completion event, which the caller then sends: the token is gone before the
//! event leaves, so a token never yields two events.

use vstd::prelude::*;
use crate::error::AppError;
use crate::registry::{current_timestamp, lookup_spec, PendingRegistry, PendingVerification};
use crate::roles::same_text;
use crate::text::{decimal_string, decimal_text};

verus! {

/// The name under which the identity provider records chat-platform links.
pub open spec fn platform_provider() -> Seq<char> {
    "discord"@
}

/// One federated identity of a single-sign-on account: the provider it comes
/// from and the account id there.
#[derive(Debug, Clone)]
pub struct FederatedIdentity {
    pub identity_provider: Option<String>,
    pub user_id: Option<String>,
}

/// The fact that an account has been linked, for the role-assignment side.
#[derive(Debug)]
pub struct VerificationComplete {
    pub discord_user_id: u64,
    pub guild_id: u64,
    pub keycloak_user_id: String,
}

/// Where one step of the state machine ends.
#[derive(Debug)]
pub enum LinkOutcome {
    /// Linked: the token is consumed and this event is to be sent.
    Linked(VerificationComplete),
    /// No chat-platform account is linked yet: the caller keeps the token in
    /// the session and sends the user through the provider's link step.
    AwaitingExternalAuth,
    /// The token is unknown, used up or expired.
    Expired,
    /// The subject is linked to another chat-platform account.
    AlreadyLinkedElsewhere,
    /// The link step linked another account than the one that asked: the
    /// caller removes that link at the provider.
    WrongIdentity,
    /// The link step ended without a link.
    NotLinked,
}

/// The first federated identity that comes from the chat platform.
pub open spec fn first_platform_identity(ids: Seq<FederatedIdentity>) -> Option<FederatedIdentity>
    decreases ids.len(),
{
    if ids.len() == 0 {
        None
    } else if ids[0].identity_provider is Some && ids[0].identity_provider->0@
        == platform_provider() {
        Some(ids[0])
    } else {
        first_platform_identity(ids.subrange(1, ids.len() as int))
    }
}

/// Whether an identity names the chat-platform account `id`, written as its
/// decimal numeral.
pub open spec fn names_account(fi: FederatedIdentity, id: u64) -> bool {
    fi.user_id is Some && fi.user_id->0@ == decimal_text(id as nat)
}

/// Whether `r` is the completion event for request `rec` and subject `sso`.
pub open spec fn is_event_for(
    ev: VerificationComplete,
    rec: PendingVerification,
    sso: Seq<char>,
) -> bool {
    ev.discord_user_id == rec.discord_user_id && ev.guild_id == rec.guild_id
        && ev.keycloak_user_id@ == sso
}

/// The first step, right after the subject has authenticated.
pub open spec fn start_post(
    before: Map<Seq<char>, PendingVerification>,
    after: Map<Seq<char>, PendingVerification>,
    token: Seq<char>,
    sso: Seq<char>,
    ids: Seq<FederatedIdentity>,
    now: i64,
    r: LinkOutcome,
) -> bool {
    match lookup_spec(before, token, now) {
        None => r is Expired && after == before,
        Some(rec) => match first_platform_identity(ids) {
            None => r is AwaitingExternalAuth && after == before,
            Some(fi) => if names_account(fi, rec.discord_user_id) {
                &&& r matches LinkOutcome::Linked(ev) && is_event_for(ev, rec, sso)
                &&& after == before.remove(token)
            } else {
                r is AlreadyLinkedElsewhere && after == before
            },
        },
    }
}

/// The second step, once the provider's link step has returned.
pub open spec fn finish_post(
    before: Map<Seq<char>, PendingVerification>,
    after: Map<Seq<char>, PendingVerification>,
    token: Seq<char>,
    sso: Seq<char>,
    ids: Seq<FederatedIdentity>,
    now: i64,
    r: LinkOutcome,
) -> bool {
    match lookup_spec(before, token, now) {
        None => r is Expired && after == before,
        Some(rec) => match first_platform_identity(ids) {
            None => r is NotLinked && after == before,
            Some(fi) => if names_account(fi, rec.discord_user_id) {
                &&& r matches LinkOutcome::Linked(ev) && is_event_for(ev, rec, sso)
                &&& after == before.remove(token)
            } else {
                r is WrongIdentity && after == before
            },
        },
    }
}

/// The first federated identity that comes from the chat platform.
pub fn platform_identity(ids: &Vec<FederatedIdentity>) -> (r: Option<&FederatedIdentity>)
    ensures
        match r {
            Some(fi) => first_platform_identity(ids@) == Some(*fi),
            None => first_platform_identity(ids@) is None,
        },
{
    proof {
        reveal_strlit("discord");
    }
    let mut i: usize = 0;
    assert(ids@.subrange(0, ids@.len() as int) =~= ids@);
    while i < ids.len()
        invariant
            0 <= i <= ids@.len(),
            first_platform_identity(ids@) == first_platform_identity(
                ids@.subrange(i as int, ids@.len() as int),
            ),
        decreases ids@.len() - i,
    {
        let ghost rest = ids@.subrange(i as int, ids@.len() as int);
        assert(rest[0] == ids@[i as int]);
        let fi = &ids[i];
        match &fi.identity_provider {
            Some(p) => {
                if same_text(p.as_str(), "discord") {
                    return Some(fi);
                }
            },
            None => {},
        }
        assert(rest.subrange(1, rest.len() as int) =~= ids@.subrange(i + 1, ids@.len() as int));
        i = i + 1;
    }
    None
}

/// Whether an identity names the chat-platform account `id`.
pub fn identity_names_account(fi: &FederatedIdentity, id: u64) -> (r: bool)
    ensures
        r == names_account(*fi, id),
{
    match &fi.user_id {
        Some(u) => u.clone() == decimal_string(id),
        None => false,
    }
}

fn link_event(rec: &PendingVerification, sso: &str) -> (ev: VerificationComplete)
    ensures
        is_event_for(ev, *rec, sso@),
{
    VerificationComplete {
        discord_user_id: rec.discord_user_id,
        guild_id: rec.guild_id,
        keycloak_user_id: sso.to_owned(),
    }
}

/// The first step at time `now`, for the subject `sso` with federated
/// identities `ids`.
pub fn check_existing_link_at(
    registry: &mut PendingRegistry,
    token: &str,
    sso: &str,
    ids: &Vec<FederatedIdentity>,
    now: i64,
) -> (r: LinkOutcome)
    ensures
        start_post(old(registry)@, final(registry)@, token@, sso@, ids@, now, r),
{
    let rec = match registry.lookup_at(token, now) {
        Some(rec) => rec,
        None => return LinkOutcome::Expired,
    };
    match platform_identity(ids) {
        None => LinkOutcome::AwaitingExternalAuth,
        Some(fi) => {
            if identity_names_account(fi, rec.discord_user_id) {
                registry.consume(token);
                LinkOutcome::Linked(link_event(&rec, sso))
            } else {
                LinkOutcome::AlreadyLinkedElsewhere
            }
        },
    }
}

/// The first step, now.
pub fn check_existing_link(
    registry: &mut PendingRegistry,
    token: &str,
    sso: &str,
    ids: &Vec<FederatedIdentity>,
) -> (r: LinkOutcome)
    ensures
        exists|now: i64| start_post(old(registry)@, final(registry)@, token@, sso@, ids@, now, r),
{
    let now = current_timestamp();
    check_existing_link_at(registry, token, sso, ids, now)
}

/// The second step at time `now`, once the provider's link step has
/// returned.
pub fn complete_link_at(
    registry: &mut PendingRegistry,
    token: &str,
    sso: &str,
    ids: &Vec<FederatedIdentity>,
    now: i64,
) -> (r: LinkOutcome)
    ensures
        finish_post(old(registry)@, final(registry)@, token@, sso@, ids@, now, r),
{
    let rec = match registry.lookup_at(token, now) {
        Some(rec) => rec,
        None => return LinkOutcome::Expired,
    };
    match platform_identity(ids) {
        None => LinkOutcome::NotLinked,
        Some(fi) => {
            if identity_names_account(fi, rec.discord_user_id) {
                registry.consume(token);
                LinkOutcome::Linked(link_event(&rec, sso))
            } else {
                LinkOutcome::WrongIdentity
            }
        },
    }
}

/// The second step, now.
pub fn complete_link(
    registry: &mut PendingRegistry,
    token: &str,
    sso: &str,
    ids: &Vec<FederatedIdentity>,
) -> (r: LinkOutcome)
    ensures
        exists|now: i64| finish_post(old(registry)@, final(registry)@, token@, sso@, ids@, now, r),
{
    let now = current_timestamp();
    complete_link_at(registry, token, sso, ids, now)
}

impl LinkOutcome {
    /// The error that a failed step reports; none for a step that linked or
    /// waits for the link step.
    pub fn error(&self) -> (r: Option<AppError>)
        ensures
            match *self {
                LinkOutcome::Linked(_) | LinkOutcome::AwaitingExternalAuth => r is None,
                LinkOutcome::Expired => r == Some(AppError::VerificationExpired),
                LinkOutcome::AlreadyLinkedElsewhere => r == Some(
                    AppError::AlreadyLinkedToDifferentAccount,
                ),
                LinkOutcome::WrongIdentity => r == Some(AppError::WrongDiscordAccount),
                LinkOutcome::NotLinked => r == Some(AppError::DiscordNotLinked),
            },
    {
        match self {
            LinkOutcome::Linked(_) | LinkOutcome::AwaitingExternalAuth => None,
            LinkOutcome::Expired => Some(AppError::VerificationExpired),
            LinkOutcome::AlreadyLinkedElsewhere => Some(AppError::AlreadyLinkedToDifferentAccount),
            LinkOutcome::WrongIdentity => Some(AppError::WrongDiscordAccount),
            LinkOutcome::NotLinked => Some(AppError::DiscordNotLinked),
        }
    }
}

/// A step that linked leaves its token unusable: running either step again
/// with that token, whatever the identities and the time, ends in `Expired`
/// and emits no second event.
pub proof fn lemma_link_is_once(
    before: Map<Seq<char>, PendingVerification>,
    after: Map<Seq<char>, PendingVerification>,
    token: Seq<char>,
    sso: Seq<char>,
    ids: Seq<FederatedIdentity>,
    now: i64,
    r: LinkOutcome,
    after2: Map<Seq<char>, PendingVerification>,
    sso2: Seq<char>,
    ids2: Seq<FederatedIdentity>,
    now2: i64,
    r2: LinkOutcome,
)
    requires
        start_post(before, after, token, sso, ids, now, r) || finish_post(
            before,
            after,
            token,
            sso,
            ids,
            now,
            r,
        ),
        r is Linked,
        start_post(after, after2, token, sso2, ids2, now2, r2) || finish_post(
            after,
            after2,
            token,
            sso2,
            ids2,
            now2,
            r2,
        ),
    ensures
        r2 is Expired,
        after2 == after,
{
}

} // verus!
