use discord_verify::error::AppError;
use discord_verify::identity::{decide_link, IdentityLinks, LinkDecision};

#[test]
fn linking_twice_changes_nothing() {
    let mut links = IdentityLinks::new();
    assert!(links.link(1, "s1", 100).is_ok());
    assert!(links.link(1, "s1", 200).is_ok());
    assert_eq!(links.sso_of(1).map(|s| s.as_str()), Some("s1"));
    assert_eq!(links.platform_of("s1"), Some(1));
}

#[test]
fn conflicting_links_are_refused() {
    let mut links = IdentityLinks::new();
    links.link(1, "s1", 100).unwrap();
    assert!(matches!(links.link(1, "s2", 100), Err(AppError::IdentityConflict)));
    assert!(matches!(links.link(2, "s1", 100), Err(AppError::IdentityConflict)));
    assert_eq!(links.sso_of(1).map(|s| s.as_str()), Some("s1"));
    assert!(links.sso_of(2).is_none());
    assert!(links.platform_of("s2").is_none());
    assert_eq!(links.unlink(1).as_deref(), Some("s1"));
    assert!(links.platform_of("s1").is_none());
    assert!(links.unlink(1).is_none());
    assert!(links.link(1, "s2", 300).is_ok());
}

#[test]
fn link_decisions() {
    assert_eq!(decide_link(1, "s", None, None), LinkDecision::Link);
    assert_eq!(decide_link(1, "s", Some("s"), Some(1)), LinkDecision::AlreadyLinked);
    assert_eq!(decide_link(1, "s", Some("t"), None), LinkDecision::Conflict);
    assert_eq!(decide_link(1, "s", None, Some(2)), LinkDecision::Conflict);
    assert_eq!(decide_link(1, "s", Some("s"), None), LinkDecision::Link);
}
