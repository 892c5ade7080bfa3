use discord_verify::roles::{Role, RoleCategory, RoleMode};
use discord_verify::session::SetupRolesSession;

#[test]
fn mode_names_round_trip() {
    for m in [RoleMode::VerifiedOnly, RoleMode::Levels, RoleMode::Classes, RoleMode::Custom] {
        assert_eq!(RoleMode::from_str(m.as_str()), m);
    }
    assert_eq!(RoleMode::from_str("none"), RoleMode::VerifiedOnly);
    assert_eq!(RoleMode::from_str("Levels"), RoleMode::VerifiedOnly);
    assert_eq!(RoleMode::from_str("custom"), RoleMode::Custom);
    assert!(RoleMode::Custom.assigns_levels() && RoleMode::Custom.assigns_classes());
    assert!(!RoleMode::Levels.assigns_classes());
}

#[test]
fn role_keys_and_names() {
    assert_eq!(Role::FifthYearSenior.key(), "class:Fifth-Year Senior");
    assert_eq!(Role::Undergrad.key(), "level:Undergrad");
    assert_eq!(Role::named(RoleCategory::Class, "Masters"), Some(Role::Masters));
    assert_eq!(Role::named(RoleCategory::Level, "Masters"), None);
    assert_eq!(Role::from_selection("class:fifth-year"), Some(Role::FifthYearSenior));
    assert_eq!(Role::from_selection("class:Fifth-Year Senior"), None);
}

#[test]
fn roles_to_create_by_mode() {
    let levels = SetupRolesSession::new(RoleMode::Levels).get_roles_to_create();
    assert_eq!(
        levels,
        vec![
            ("Undergrad".to_string(), "level:Undergrad".to_string()),
            ("Graduate".to_string(), "level:Graduate".to_string()),
        ]
    );
    let classes = SetupRolesSession::new(RoleMode::Classes).get_roles_to_create();
    assert_eq!(classes.len(), 7);
    assert_eq!(classes[0], ("First-Year".to_string(), "class:First-Year".to_string()));
    assert_eq!(classes[6], ("Doctoral".to_string(), "class:Doctoral".to_string()));
    assert!(SetupRolesSession::new(RoleMode::VerifiedOnly).get_roles_to_create().is_empty());
}

#[test]
fn custom_selection() {
    let mut s = SetupRolesSession::new(RoleMode::Custom);
    assert!(s.validate().is_err());
    s.set_custom_roles(vec![
        "class:doctoral".to_string(),
        "bogus".to_string(),
        "level:undergrad".to_string(),
    ]);
    assert!(s.validate().is_ok());
    assert_eq!(s.desired_roles(), vec![Role::Undergrad, Role::Doctoral]);
    assert_eq!(
        s.get_roles_to_create(),
        vec![
            ("Undergrad".to_string(), "level:Undergrad".to_string()),
            ("Doctoral".to_string(), "class:Doctoral".to_string()),
        ]
    );
    assert!(SetupRolesSession::new(RoleMode::Levels).validate().is_ok());
}
