use discord_verify::error::AppError;
use discord_verify::keys::{
    linking_url, log_channel_key, pending_key, platform_link_key, role_mode_key, role_store_key,
    sso_link_key, success_path, verified_at_key, verified_role_key, verify_url,
};
use discord_verify::progress::generate_progress_bar;
use discord_verify::reconcile::{LiveRole, StoredRoles};
use discord_verify::role_config::GuildRoleConfig;
use discord_verify::roles::Role;
use discord_verify::text::{decimal_string, parse_u64};

fn live(ids: &[u64]) -> Vec<LiveRole> {
    ids.iter().map(|&id| LiveRole { id, name: format!("r{}", id) }).collect()
}

fn config(mode: &str, verified: Option<&str>) -> GuildRoleConfig {
    let values = vec![
        Some("10".to_string()),
        Some("11".to_string()),
        Some("20".to_string()),
        None,
        None,
        None,
        None,
        Some("27".to_string()),
        None,
    ];
    let stored = StoredRoles::from_store(Some(mode), &values);
    GuildRoleConfig::resolve(5, verified, &stored, Some("555"), &live(&[1, 10, 20, 27]))
}

#[test]
fn resolve_drops_missing_roles() {
    let c = config("custom", Some("1"));
    assert_eq!(c.verified_role, Some(1));
    assert_eq!(c.get_level_role("Undergrad"), Some(10));
    assert_eq!(c.get_level_role("Graduate"), None);
    assert_eq!(c.get_class_role("First-Year"), Some(20));
    assert_eq!(c.get_class_role("Masters"), Some(27));
    assert_eq!(c.get_class_role("Undergrad"), None);
    assert_eq!(c.get_log_channel(), Some(555));
    let gone = config("custom", Some("2"));
    assert_eq!(gone.verified_role, None);
}

#[test]
fn roles_for_a_verified_user() {
    let c = config("custom", Some("1"));
    assert_eq!(c.roles_for_verified_user(Some("Undergrad"), Some("Masters")).unwrap(), vec![1, 10, 27]);
    assert_eq!(c.roles_for_verified_user(Some("Graduate"), None).unwrap(), vec![1]);
    let levels = config("levels", Some("1"));
    assert!(levels.should_assign_level_roles() && !levels.should_assign_class_roles());
    assert_eq!(levels.roles_for_verified_user(Some("Undergrad"), Some("Masters")).unwrap(), vec![1, 10]);
    let none = config("none", Some("1"));
    assert_eq!(none.roles_for_verified_user(Some("Undergrad"), Some("Masters")).unwrap(), vec![1]);
    let unset = config("custom", None);
    match unset.roles_for_verified_user(Some("Undergrad"), None) {
        Err(AppError::Misconfiguration(m)) => assert!(m.starts_with("No verified role configured")),
        _ => panic!("expected a misconfiguration"),
    }
    assert!(matches!(unset.get_verified_role(), Err(AppError::Misconfiguration(_))));
}

#[test]
fn roles_removed_on_unverify() {
    let c = config("custom", Some("1"));
    assert_eq!(c.roles_to_remove(&vec![3, 27, 1, 4, 10]), vec![27, 1, 10]);
    assert!(c.roles_to_remove(&vec![]).is_empty());
}

#[test]
fn store_keys() {
    assert_eq!(pending_key("abc"), "verify:abc");
    assert_eq!(platform_link_key(42), "discord:42:keycloak");
    assert_eq!(sso_link_key("k-1"), "keycloak:k-1:discord");
    assert_eq!(verified_at_key(42), "discord:42:verified_at");
    assert_eq!(verified_role_key(9), "guild:9:role:verified");
    assert_eq!(role_mode_key(9), "guild:9:role_mode");
    assert_eq!(log_channel_key(9), "guild:9:log_channel");
    assert_eq!(role_store_key(9, Role::FifthYearSenior), "guild:9:role:class:Fifth-Year Senior");
}

#[test]
fn web_addresses() {
    assert_eq!(verify_url("https://app", "t1"), "https://app/verify?state=t1");
    assert_eq!(success_path("t1"), "/success?state=t1");
    assert_eq!(
        linking_url("https://kc", "cmu", "my client", "https://app"),
        "https://kc/realms/cmu/protocol/openid-connect/auth?client_id=my%20client&redirect_uri=https%3A%2F%2Fapp%2Flink-callback&response_type=code&scope=openid%20email%20profile&kc_action=idp_link:discord"
    );
}

#[test]
fn error_pages() {
    assert_eq!(AppError::VerificationExpired.redirect_path(), "/error?msg=expired");
    assert_eq!(AppError::WrongDiscordAccount.redirect_path(), "/error?msg=wrong_account");
    assert_eq!(AppError::AlreadyLinkedToDifferentAccount.redirect_path(), "/error?msg=already_linked");
    assert_eq!(AppError::DiscordNotLinked.redirect_path(), "/error?msg=not_linked");
    assert_eq!(AppError::IdentityConflict.redirect_path(), "/error?msg=already_linked");
    assert_eq!(AppError::RedisError("x".to_string()).redirect_path(), "/error?msg=server_error");
    assert_eq!(AppError::KeycloakError("x".to_string()).redirect_path(), "/error?msg=server_error");
    assert_eq!(AppError::InternalError("x".to_string()).redirect_path(), "/error?msg=server_error");
    assert_eq!(AppError::Misconfiguration("x".to_string()).redirect_path(), "/error?msg=server_error");
}

#[test]
fn progress_bars() {
    assert_eq!(generate_progress_bar(0, 0, 4), "[    ] 0%");
    assert_eq!(generate_progress_bar(5, 10, 4), "[██░░] 50%");
    assert_eq!(generate_progress_bar(1, 3, 20), format!("[{}{}] 33%", "█".repeat(7), "░".repeat(13)));
    assert_eq!(generate_progress_bar(1, 8, 0), "[] 13%");
    assert_eq!(generate_progress_bar(3, 2, 2), "[███] 150%");
}

#[test]
fn decimal_numerals() {
    assert_eq!(parse_u64("0"), Some(0));
    assert_eq!(parse_u64("18446744073709551615"), Some(u64::MAX));
    assert_eq!(parse_u64("18446744073709551616"), None);
    assert_eq!(parse_u64(""), None);
    assert_eq!(parse_u64("-1"), None);
    assert_eq!(parse_u64("12a"), None);
    assert_eq!(parse_u64("+5"), Some(5));
    assert_eq!(parse_u64("+"), None);
    assert_eq!(parse_u64("++5"), None);
    assert_eq!(parse_u64("5+"), None);
    assert_eq!(decimal_string(0), "0");
    assert_eq!(decimal_string(1234567890), "1234567890");
    assert_eq!(decimal_string(u64::MAX), "18446744073709551615");
}
