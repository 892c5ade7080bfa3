use discord_verify::error::AppError;
use discord_verify::linking::{
    check_existing_link, check_existing_link_at, complete_link, complete_link_at,
    identity_names_account, platform_identity, FederatedIdentity, LinkOutcome,
};
use discord_verify::registry::{PendingRegistry, PendingVerification, VERIFICATION_TTL_SECS};

fn discord(user_id: &str) -> FederatedIdentity {
    FederatedIdentity {
        identity_provider: Some("discord".to_string()),
        user_id: Some(user_id.to_string()),
    }
}

fn other_provider(user_id: &str) -> FederatedIdentity {
    FederatedIdentity {
        identity_provider: Some("github".to_string()),
        user_id: Some(user_id.to_string()),
    }
}

fn registry_with(token: &str, user: u64, guild: u64, created_at: i64) -> PendingRegistry {
    let mut reg = PendingRegistry::new();
    reg.restore(
        token.to_string(),
        PendingVerification {
            discord_user_id: user,
            discord_username: "alice".to_string(),
            guild_id: guild,
            created_at,
        },
    );
    reg
}

#[test]
fn unlinked_subject_then_linked_after_secondary_auth() {
    let mut reg = registry_with("T1", 111, 900, 1_000);
    let first = check_existing_link_at(&mut reg, "T1", "S1", &vec![other_provider("x")], 1_010);
    assert!(matches!(first, LinkOutcome::AwaitingExternalAuth));
    assert!(reg.lookup_at("T1", 1_010).is_some());

    let second = complete_link_at(&mut reg, "T1", "S1", &vec![discord("111")], 1_020);
    match second {
        LinkOutcome::Linked(ev) => {
            assert_eq!(ev.discord_user_id, 111);
            assert_eq!(ev.guild_id, 900);
            assert_eq!(ev.keycloak_user_id, "S1");
        }
        _ => panic!("expected a link"),
    }
    assert!(reg.lookup_at("T1", 1_020).is_none());

    let replay = complete_link_at(&mut reg, "T1", "S1", &vec![discord("111")], 1_030);
    assert!(matches!(replay, LinkOutcome::Expired));
    let replay_first = check_existing_link_at(&mut reg, "T1", "S1", &vec![discord("111")], 1_030);
    assert!(matches!(replay_first, LinkOutcome::Expired));
}

#[test]
fn subject_linked_to_another_account_is_refused() {
    let mut reg = registry_with("T1", 111, 900, 1_000);
    let r = check_existing_link_at(&mut reg, "T1", "S1", &vec![discord("222")], 1_010);
    assert!(matches!(r, LinkOutcome::AlreadyLinkedElsewhere));
    assert!(reg.lookup_at("T1", 1_010).is_some());
    assert!(reg.lookup_at("T1", 1_000 + VERIFICATION_TTL_SECS - 1).is_some());
    assert!(reg.lookup_at("T1", 1_000 + VERIFICATION_TTL_SECS).is_none());
}

#[test]
fn already_linked_same_account_links_at_once() {
    let mut reg = registry_with("T1", 111, 900, 1_000);
    let r = check_existing_link_at(&mut reg, "T1", "S1", &vec![other_provider("111"), discord("111")], 1_010);
    assert!(matches!(r, LinkOutcome::Linked(_)));
    assert!(reg.lookup_at("T1", 1_010).is_none());
}

#[test]
fn wrong_account_after_secondary_auth() {
    let mut reg = registry_with("T1", 111, 900, 1_000);
    let r = complete_link_at(&mut reg, "T1", "S1", &vec![discord("333")], 1_010);
    assert!(matches!(r, LinkOutcome::WrongIdentity));
    assert!(matches!(r.error(), Some(AppError::WrongDiscordAccount)));
    assert!(reg.lookup_at("T1", 1_010).is_some());
}

#[test]
fn cancelled_secondary_auth_is_not_linked() {
    let mut reg = registry_with("T1", 111, 900, 1_000);
    let r = complete_link_at(&mut reg, "T1", "S1", &vec![], 1_010);
    assert!(matches!(r, LinkOutcome::NotLinked));
    assert!(matches!(r.error(), Some(AppError::DiscordNotLinked)));
}

#[test]
fn expired_token_is_expired() {
    let mut reg = registry_with("T1", 111, 900, 1_000);
    let r = check_existing_link_at(&mut reg, "T1", "S1", &vec![discord("111")], 1_600);
    assert!(matches!(r, LinkOutcome::Expired));
    assert!(matches!(r.error(), Some(AppError::VerificationExpired)));
    let unknown = complete_link_at(&mut reg, "nope", "S1", &vec![discord("111")], 1_010);
    assert!(matches!(unknown, LinkOutcome::Expired));
}

#[test]
fn steps_with_the_clock() {
    let mut reg = PendingRegistry::new();
    let (token, _) = reg.create(111, "alice".to_string(), 900).unwrap();
    let r = check_existing_link(&mut reg, &token, "S1", &vec![]);
    assert!(matches!(r, LinkOutcome::AwaitingExternalAuth));
    let r = complete_link(&mut reg, &token, "S1", &vec![discord("111")]);
    assert!(matches!(r, LinkOutcome::Linked(_)));
    assert!(reg.lookup(&token).is_none());
}

#[test]
fn identity_matching_is_exact() {
    assert!(identity_names_account(&discord("111"), 111));
    assert!(!identity_names_account(&discord("0111"), 111));
    assert!(!identity_names_account(&discord("11"), 111));
    let none = FederatedIdentity { identity_provider: Some("discord".to_string()), user_id: None };
    assert!(!identity_names_account(&none, 111));
    let ids = vec![other_provider("1"), discord("2"), discord("3")];
    assert_eq!(platform_identity(&ids).unwrap().user_id.as_deref(), Some("2"));
    assert!(platform_identity(&vec![other_provider("1")]).is_none());
}
