use discord_verify::reconcile::{
    contains_role, find_named, plan_commit, LiveRole, RoleAction, StepOutcome, StoredRoles,
};
use discord_verify::roles::{Role, RoleMode, ROLE_COUNT};
use discord_verify::session::SetupRolesSession;

struct Platform {
    roles: Vec<LiveRole>,
    next_id: u64,
    creates: usize,
    deletes: usize,
}

impl Platform {
    fn run(&mut self, stored: &mut StoredRoles, session: &SetupRolesSession) {
        let plan = plan_commit(session, stored, &self.roles).unwrap();
        for i in 0..ROLE_COUNT {
            let role = Role::at(i);
            let outcome = match plan[i] {
                RoleAction::Delete { id, live } => {
                    if live {
                        self.deletes += 1;
                        self.roles.retain(|r| r.id != id);
                    }
                    StepOutcome::Done
                }
                RoleAction::Create | RoleAction::Recreate => {
                    self.creates += 1;
                    let id = self.next_id;
                    self.next_id += 1;
                    self.roles.push(LiveRole { id, name: role.display_name().to_string() });
                    StepOutcome::Created(id)
                }
                _ => StepOutcome::Done,
            };
            stored.record(i, plan[i], outcome);
        }
        stored.set_mode(session.mode);
    }
}

fn live(id: u64, name: &str) -> LiveRole {
    LiveRole { id, name: name.to_string() }
}

#[test]
fn levels_to_classes_switch() {
    let values = vec![
        Some("100".to_string()),
        Some("200".to_string()),
        None, None, None, None, None, None, None,
    ];
    let mut stored = StoredRoles::from_store(Some("levels"), &values);
    assert_eq!(stored.mode, RoleMode::Levels);
    let mut platform = Platform {
        roles: vec![live(100, "Undergrad"), live(1, "Moderator")],
        next_id: 1000,
        creates: 0,
        deletes: 0,
    };
    let session = SetupRolesSession::new(RoleMode::Classes);
    let plan = plan_commit(&session, &stored, &platform.roles).unwrap();
    assert_eq!(plan[0], RoleAction::Delete { id: 100, live: true });
    assert_eq!(plan[1], RoleAction::Delete { id: 200, live: false });
    for i in 2..ROLE_COUNT {
        assert_eq!(plan[i], RoleAction::Create);
    }
    platform.run(&mut stored, &session);
    assert_eq!(platform.deletes, 1);
    assert_eq!(platform.creates, 7);
    assert_eq!(stored.ids[0], None);
    assert_eq!(stored.ids[1], None);
    for i in 2..ROLE_COUNT {
        assert!(stored.ids[i].is_some());
    }
    assert_eq!(stored.mode.as_str(), "classes");
    assert!(!contains_role(&platform.roles, 100));
}

#[test]
fn switching_to_none_removes_the_roles() {
    let mut stored = StoredRoles::new();
    let mut platform = Platform { roles: vec![], next_id: 10, creates: 0, deletes: 0 };
    platform.run(&mut stored, &SetupRolesSession::new(RoleMode::Levels));
    platform.run(&mut stored, &SetupRolesSession::new(RoleMode::VerifiedOnly));
    assert_eq!(platform.deletes, 2);
    assert!(stored.ids.iter().all(|id| id.is_none()));
    assert_eq!(stored.mode.as_str(), "none");
    let mut custom = SetupRolesSession::new(RoleMode::Custom);
    custom.set_custom_roles(vec!["level:undergrad".to_string()]);
    platform.run(&mut stored, &custom);
    platform.run(&mut stored, &custom);
    assert_eq!(platform.creates, 3);
    assert_eq!(platform.deletes, 2);
}

#[test]
fn second_run_is_a_no_op() {
    let mut stored = StoredRoles::new();
    let mut platform = Platform { roles: vec![], next_id: 10, creates: 0, deletes: 0 };
    let mut session = SetupRolesSession::new(RoleMode::Custom);
    session.set_custom_roles(vec!["level:graduate".to_string(), "class:masters".to_string()]);
    platform.run(&mut stored, &session);
    assert_eq!(platform.creates, 2);
    let after_first = stored.ids.clone();
    platform.run(&mut stored, &session);
    assert_eq!(platform.creates, 2);
    assert_eq!(platform.deletes, 0);
    assert_eq!(stored.ids, after_first);
    let plan = plan_commit(&session, &stored, &platform.roles).unwrap();
    assert_eq!(plan[1], RoleAction::Keep { id: after_first[1].unwrap() });
    assert_eq!(plan[0], RoleAction::Untouched);
}

#[test]
fn role_deleted_outside_is_recreated() {
    let mut stored = StoredRoles::new();
    let mut platform = Platform { roles: vec![], next_id: 10, creates: 0, deletes: 0 };
    let session = SetupRolesSession::new(RoleMode::Levels);
    platform.run(&mut stored, &session);
    let undergrad = stored.ids[0].unwrap();
    platform.roles.retain(|r| r.id != undergrad);
    let plan = plan_commit(&session, &stored, &platform.roles).unwrap();
    assert_eq!(plan[0], RoleAction::Recreate);
    platform.run(&mut stored, &session);
    let fresh = stored.ids[0].unwrap();
    assert_ne!(fresh, undergrad);
    assert!(contains_role(&platform.roles, fresh));
    assert_eq!(platform.creates, 3);
}

#[test]
fn existing_role_with_same_name_is_reused() {
    let mut stored = StoredRoles::new();
    let mut platform = Platform {
        roles: vec![live(77, "Graduate"), live(78, "Graduate")],
        next_id: 10,
        creates: 0,
        deletes: 0,
    };
    let session = SetupRolesSession::new(RoleMode::Levels);
    let plan = plan_commit(&session, &stored, &platform.roles).unwrap();
    assert_eq!(plan[1], RoleAction::Reuse { id: 77 });
    platform.run(&mut stored, &session);
    assert_eq!(stored.ids[1], Some(77));
    assert_eq!(platform.creates, 1);
    assert_eq!(find_named(&platform.roles, "Graduate"), Some(77));
    assert_eq!(find_named(&platform.roles, "Masters"), None);
}

#[test]
fn empty_custom_commit_makes_no_calls() {
    let stored = StoredRoles::new();
    let session = SetupRolesSession::new(RoleMode::Custom);
    let r = plan_commit(&session, &stored, &vec![]);
    assert_eq!(
        r.unwrap_err(),
        "Please select at least one role to create for custom mode."
    );
}

#[test]
fn failed_creation_keeps_the_old_slot() {
    let mut stored = StoredRoles::new();
    stored.record(0, RoleAction::Create, StepOutcome::Failed);
    assert_eq!(stored.ids[0], None);
    stored.record(0, RoleAction::Reuse { id: 5 }, StepOutcome::Done);
    assert_eq!(stored.ids[0], Some(5));
    stored.record(0, RoleAction::Recreate, StepOutcome::Failed);
    assert_eq!(stored.ids[0], Some(5));
    stored.record(0, RoleAction::Delete { id: 5, live: true }, StepOutcome::Failed);
    assert_eq!(stored.ids[0], Some(5));
    stored.record(0, RoleAction::Delete { id: 5, live: true }, StepOutcome::Done);
    assert_eq!(stored.ids[0], None);
    stored.record(0, RoleAction::Reuse { id: 6 }, StepOutcome::Done);
    stored.record(0, RoleAction::Delete { id: 6, live: false }, StepOutcome::Done);
    assert_eq!(stored.ids[0], None);
}

#[test]
fn stored_values_that_are_not_ids_are_unset() {
    let values = vec![
        Some("12".to_string()),
        Some("x1".to_string()),
        Some("".to_string()),
        Some("99999999999999999999".to_string()),
        None, None, None, None, None,
    ];
    let stored = StoredRoles::from_store(Some("custom"), &values);
    assert_eq!(stored.mode, RoleMode::Custom);
    assert_eq!(stored.ids[0], Some(12));
    assert_eq!(stored.ids[1], None);
    assert_eq!(stored.ids[2], None);
    assert_eq!(stored.ids[3], None);
    let configured = stored.configured();
    assert_eq!(configured, vec![(Role::Undergrad, 12)]);
    let levels = StoredRoles::from_store(Some("levels"), &values);
    assert_eq!(levels.ids[0], Some(12));
    assert_eq!(levels.ids[7], None);
    let mut class_values = values.clone();
    class_values[7] = Some("+70".to_string());
    let classes = StoredRoles::from_store(Some("classes"), &class_values);
    assert_eq!(classes.ids[0], None);
    assert_eq!(classes.ids[7], Some(70));
    let none = StoredRoles::from_store(None, &values);
    assert_eq!(none.mode, RoleMode::VerifiedOnly);
    assert!(none.configured().is_empty());
}
