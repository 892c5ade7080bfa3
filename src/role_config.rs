//! A server's role configuration as the verification flow reads it: stored
//! role ids that no longer exist on the platform count as not configured.

use vstd::prelude::*;
use crate::error::AppError;
use crate::reconcile::{contains_role, live_has, LiveRole, StoredRoles};
use crate::roles::{
    lemma_role_index, lemma_role_names_distinct, role_at, role_category, role_index, role_name,
    Role, RoleCategory, RoleMode, ROLE_COUNT,
};
use crate::text::{decimal_value, parse_u64};

verus! {

/// The role of category `c` named `name`, if there is one.
pub open spec fn role_named(c: RoleCategory, name: Seq<char>) -> Option<Role> {
    if exists|r: Role| role_category(r) == c && role_name(r) == name {
        Some(choose|r: Role| role_category(r) == c && role_name(r) == name)
    } else {
        None
    }
}

/// The id configured for the role of category `c` named `name`.
pub open spec fn configured_role(ids: Seq<Option<u64>>, c: RoleCategory, name: Seq<char>) -> Option<
    u64,
> {
    match role_named(c, name) {
        Some(r) => ids[role_index(r)],
        None => None,
    }
}

/// A stored id, kept only when the platform still has it.
pub open spec fn live_id(id: Option<u64>, live: Seq<LiveRole>) -> Option<u64> {
    match id {
        Some(i) => if live_has(live, i) {
            Some(i)
        } else {
            None
        },
        None => None,
    }
}

/// A stored text read as an id.
pub open spec fn stored_id(value: Option<&str>) -> Option<u64> {
    match value {
        Some(v) => decimal_value(v@),
        None => None,
    }
}

/// The message given when a server has no verified role.
pub open spec fn no_verified_role_message() -> Seq<char> {
    "No verified role configured for this server. Please ask an administrator to run `/setverifiedrole` first."@
}

/// Every role that the configuration of a server can assign.
#[derive(Debug, Clone)]
pub struct GuildRoleConfig {
    pub guild_id: u64,
    pub verified_role: Option<u64>,
    pub mode: RoleMode,
    /// One optional id per role, in the roles' fixed order.
    pub role_ids: Vec<Option<u64>>,
    pub log_channel: Option<u64>,
}

proof fn lemma_role_named(role: Role)
    ensures
        role_named(role_category(role), role_name(role)) == Some(role),
{
    let c = choose|r: Role| role_category(r) == role_category(role) && role_name(r) == role_name(role);
    if c != role {
        lemma_role_names_distinct(c, role);
    }
}

impl GuildRoleConfig {
    pub open spec fn wf(&self) -> bool {
        self.role_ids@.len() == ROLE_COUNT
    }

    /// Builds the configuration from what the store holds, given the roles
    /// that exist on the platform: the stored verified role, the stored role
    /// mapping and the stored log channel. Ids that are not on the platform
    /// are dropped; the store itself is not touched.
    pub fn resolve(
        guild_id: u64,
        verified_role: Option<&str>,
        stored: &StoredRoles,
        log_channel: Option<&str>,
        live: &Vec<LiveRole>,
    ) -> (r: GuildRoleConfig)
        requires
            stored.wf(),
        ensures
            r.wf(),
            r.guild_id == guild_id,
            r.verified_role == live_id(stored_id(verified_role), live@),
            r.mode == stored.mode,
            forall|i: int|
                0 <= i < ROLE_COUNT ==> #[trigger] r.role_ids@[i] == live_id(stored.ids@[i], live@),
            r.log_channel == stored_id(log_channel),
    {
        let verified = match verified_role {
            Some(v) => match parse_u64(v) {
                Some(id) => if contains_role(live, id) {
                    Some(id)
                } else {
                    None
                },
                None => None,
            },
            None => None,
        };
        let mut ids: Vec<Option<u64>> = Vec::new();
        let mut i: usize = 0;
        while i < ROLE_COUNT
            invariant
                0 <= i <= ROLE_COUNT,
                stored.wf(),
                ids@.len() == i,
                forall|j: int| 0 <= j < i ==> #[trigger] ids@[j] == live_id(stored.ids@[j], live@),
            decreases ROLE_COUNT - i,
        {
            let id = match stored.ids[i] {
                Some(id) => if contains_role(live, id) {
                    Some(id)
                } else {
                    None
                },
                None => None,
            };
            ids.push(id);
            i = i + 1;
        }
        let channel = match log_channel {
            Some(v) => parse_u64(v),
            None => None,
        };
        GuildRoleConfig {
            guild_id,
            verified_role: verified,
            mode: stored.mode,
            role_ids: ids,
            log_channel: channel,
        }
    }

    /// The verified role; a server without one is misconfigured.
    pub fn get_verified_role(&self) -> (r: Result<u64, AppError>)
        ensures
            match self.verified_role {
                Some(id) => r == Ok::<u64, AppError>(id),
                None => r matches Err(AppError::Misconfiguration(m)) && m@
                    == no_verified_role_message(),
            },
    {
        match self.verified_role {
            Some(id) => Ok(id),
            None => Err(
                AppError::Misconfiguration(
                    "No verified role configured for this server. Please ask an administrator to run `/setverifiedrole` first.".to_owned(),
                ),
            ),
        }
    }

    fn configured(&self, c: RoleCategory, name: &str) -> (r: Option<u64>)
        requires
            self.wf(),
        ensures
            r == configured_role(self.role_ids@, c, name@),
    {
        match Role::named(c, name) {
            Some(role) => {
                proof {
                    lemma_role_named(role);
                }
                self.role_ids[role.index()]
            },
            None => {
                assert(!exists|r: Role| role_category(r) == c && role_name(r) == name@);
                None
            },
        }
    }

    /// The role for a level (`Undergrad`, `Graduate`), when configured.
    pub fn get_level_role(&self, level: &str) -> (r: Option<u64>)
        requires
            self.wf(),
        ensures
            r == configured_role(self.role_ids@, RoleCategory::Level, level@),
    {
        self.configured(RoleCategory::Level, level)
    }

    /// The role for a class (`First-Year` to `Doctoral`), when configured.
    pub fn get_class_role(&self, class: &str) -> (r: Option<u64>)
        requires
            self.wf(),
        ensures
            r == configured_role(self.role_ids@, RoleCategory::Class, class@),
    {
        self.configured(RoleCategory::Class, class)
    }

    pub fn should_assign_level_roles(&self) -> (r: bool)
        ensures
            r == (self.mode == RoleMode::Levels || self.mode == RoleMode::Custom),
    {
        self.mode.assigns_levels()
    }

    pub fn should_assign_class_roles(&self) -> (r: bool)
        ensures
            r == (self.mode == RoleMode::Classes || self.mode == RoleMode::Custom),
    {
        self.mode.assigns_classes()
    }

    pub fn get_log_channel(&self) -> (r: Option<u64>)
        ensures
            r == self.log_channel,
    {
        self.log_channel
    }

    /// The level role that a user with this level attribute gets.
    pub open spec fn level_grant(&self, level: Option<&str>) -> Option<u64> {
        if (self.mode == RoleMode::Levels || self.mode == RoleMode::Custom) && level is Some {
            configured_role(self.role_ids@, RoleCategory::Level, level->0@)
        } else {
            None
        }
    }

    /// The class role that a user with this class attribute gets.
    pub open spec fn class_grant(&self, class: Option<&str>) -> Option<u64> {
        if (self.mode == RoleMode::Classes || self.mode == RoleMode::Custom) && class is Some {
            configured_role(self.role_ids@, RoleCategory::Class, class->0@)
        } else {
            None
        }
    }

    /// The roles to give a user who has just verified, from the first value
    /// of the user's `level` and `class` attributes: the verified role, then
    /// the level role and the class role where the mode assigns them and they
    /// are configured. Without a verified role the server is misconfigured
    /// and nothing is given.
    pub fn roles_for_verified_user(&self, level: Option<&str>, class: Option<&str>) -> (r: Result<
        Vec<u64>,
        AppError,
    >)
        requires
            self.wf(),
        ensures
            match self.verified_role {
                None => r matches Err(AppError::Misconfiguration(m)) && m@
                    == no_verified_role_message(),
                Some(v) => r matches Ok(roles) && roles@ == seq![v] + (match self.level_grant(
                    level,
                ) {
                    Some(id) => seq![id],
                    None => Seq::empty(),
                }) + (match self.class_grant(class) {
                    Some(id) => seq![id],
                    None => Seq::empty(),
                }),
            },
    {
        let verified = match self.get_verified_role() {
            Ok(v) => v,
            Err(e) => return Err(e),
        };
        let mut out: Vec<u64> = Vec::new();
        out.push(verified);
        let ghost first = out@;
        if self.should_assign_level_roles() {
            match level {
                Some(name) => match self.get_level_role(name) {
                    Some(id) => out.push(id),
                    None => {},
                },
                None => {},
            }
        }
        let ghost second = out@;
        if self.should_assign_class_roles() {
            match class {
                Some(name) => match self.get_class_role(name) {
                    Some(id) => out.push(id),
                    None => {},
                },
                None => {},
            }
        }
        assert(out@ =~= seq![verified] + (match self.level_grant(level) {
            Some(id) => seq![id],
            None => Seq::<u64>::empty(),
        }) + (match self.class_grant(class) {
            Some(id) => seq![id],
            None => Seq::<u64>::empty(),
        }));
        Ok(out)
    }

    /// Whether the configuration gives out role `id`: the verified role or a
    /// configured level or class role.
    pub open spec fn manages(&self, id: u64) -> bool {
        self.verified_role == Some(id) || exists|i: int|
            0 <= i < self.role_ids@.len() && self.role_ids@[i] == Some(id)
    }

    /// Of a member's roles, those to take away when the member is
    /// unverified, in the member's order.
    pub fn roles_to_remove(&self, member_roles: &Vec<u64>) -> (r: Vec<u64>)
        requires
            self.wf(),
        ensures
            r@ == member_roles@.filter(|id: u64| self.manages(id)),
    {
        let ghost pred = |id: u64| self.manages(id);
        let mut out: Vec<u64> = Vec::new();
        let mut i: usize = 0;
        while i < member_roles.len()
            invariant
                0 <= i <= member_roles@.len(),
                self.wf(),
                pred == (|id: u64| self.manages(id)),
                out@ == member_roles@.subrange(0, i as int).filter(pred),
            decreases member_roles@.len() - i,
        {
            let id = member_roles[i];
            proof {
                let s = member_roles@.subrange(0, i as int);
                assert(member_roles@.subrange(0, i + 1) =~= s.push(id));
                s.lemma_filter_push(id, pred);
            }
            let mut managed = self.verified_role == Some(id);
            let mut j: usize = 0;
            while j < ROLE_COUNT && !managed
                invariant
                    0 <= j <= ROLE_COUNT,
                    self.wf(),
                    managed == self.manages(id) || (!managed && forall|k: int|
                        0 <= k < j ==> self.role_ids@[k] != Some(id)),
                    !managed ==> self.verified_role != Some(id),
                decreases ROLE_COUNT - j,
            {
                if self.role_ids[j] == Some(id) {
                    managed = true;
                }
                j = j + 1;
            }
            assert(managed == self.manages(id));
            if managed {
                out.push(id);
            }
            i = i + 1;
        }
        assert(member_roles@.subrange(0, member_roles@.len() as int) =~= member_roles@);
        out
    }
}

} // verus!
