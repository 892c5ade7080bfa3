//! The configuration wizard's state for one operator on one server, up to the
//! point where it is committed.

use vstd::prelude::*;
use crate::roles::{
    mode_covers, role_at, role_key, role_name, same_text, selection_value, Role, RoleCategory,
    RoleMode, ROLE_COUNT,
};

verus! {

broadcast use vstd::seq_lib::group_seq_properties;

/// Whether one of the wizard's selections picks `r`.
pub open spec fn selects(selections: Seq<String>, r: Role) -> bool {
    exists|i: int| 0 <= i < selections.len() && (#[trigger] selections[i])@ == selection_value(r)
}

/// Whether a mode, with the given selections for the custom mode, asks for `r`.
pub open spec fn desires(mode: RoleMode, selections: Seq<String>, r: Role) -> bool {
    match mode {
        RoleMode::Custom => selects(selections, r),
        _ => mode_covers(mode, r),
    }
}

/// Every role, in their fixed order.
pub open spec fn all_roles() -> Seq<Role> {
    Seq::new(ROLE_COUNT as nat, |i: int| role_at(i))
}

/// The message given when the custom mode is committed with nothing selected.
pub open spec fn empty_custom_message() -> Seq<char> {
    "Please select at least one role to create for custom mode."@
}

/// The chosen mode and, for the custom mode, the selections made so far.
#[derive(Debug, Clone)]
pub struct SetupRolesSession {
    pub mode: RoleMode,
    pub custom_roles: Vec<String>,
}

impl SetupRolesSession {
    /// Whether committing this session asks for role `r`.
    pub open spec fn wants(&self, r: Role) -> bool {
        desires(self.mode, self.custom_roles@, r)
    }

    /// The roles that committing this session asks for, in their fixed order.
    pub open spec fn desired(&self) -> Seq<Role> {
        all_roles().filter(|r: Role| self.wants(r))
    }

    pub fn new(mode: RoleMode) -> (r: Self)
        ensures
            r.mode == mode,
            r.custom_roles@.len() == 0,
    {
        SetupRolesSession { mode, custom_roles: Vec::new() }
    }

    /// Replaces the custom selections.
    pub fn set_custom_roles(&mut self, roles: Vec<String>)
        ensures
            final(self).mode == old(self).mode,
            final(self).custom_roles == roles,
    {
        self.custom_roles = roles;
    }

    /// Refuses a custom-mode session that has nothing selected.
    pub fn validate(&self) -> (r: Result<(), &'static str>)
        ensures
            r is Err <==> (self.mode == RoleMode::Custom && self.custom_roles@.len() == 0),
            r matches Err(m) ==> m@ == empty_custom_message(),
    {
        if self.mode == RoleMode::Custom && self.custom_roles.len() == 0 {
            return Err("Please select at least one role to create for custom mode.");
        }
        Ok(())
    }

    pub fn wants_role(&self, r: Role) -> (b: bool)
        ensures
            b == self.wants(r),
    {
        match self.mode {
            RoleMode::Custom => {
                let mut i: usize = 0;
                while i < self.custom_roles.len()
                    invariant
                        0 <= i <= self.custom_roles@.len(),
                        self.mode == RoleMode::Custom,
                        forall|j: int|
                            0 <= j < i ==> (#[trigger] self.custom_roles@[j])@ != selection_value(
                                r,
                            ),
                    decreases self.custom_roles@.len() - i,
                {
                    if same_text(self.custom_roles[i].as_str(), r.selection_value()) {
                        assert(selects(self.custom_roles@, r)) by {
                            assert(self.custom_roles@[i as int]@ == selection_value(r));
                        }
                        return true;
                    }
                    i = i + 1;
                }
                false
            },
            RoleMode::Levels => r.category() == RoleCategory::Level,
            RoleMode::Classes => r.category() == RoleCategory::Class,
            RoleMode::VerifiedOnly => false,
        }
    }

    /// The roles that committing this session asks for, in their fixed order.
    pub fn desired_roles(&self) -> (r: Vec<Role>)
        ensures
            r@ == self.desired(),
    {
        let mut out: Vec<Role> = Vec::new();
        let mut i: usize = 0;
        let ghost pred = |x: Role| self.wants(x);
        while i < ROLE_COUNT
            invariant
                0 <= i <= ROLE_COUNT,
                pred == (|x: Role| self.wants(x)),
                out@ == all_roles().subrange(0, i as int).filter(pred),
            decreases ROLE_COUNT - i,
        {
            let role = Role::at(i);
            proof {
                let s = all_roles().subrange(0, i as int);
                assert(all_roles().subrange(0, i + 1) =~= s.push(role));
                s.lemma_filter_push(role, pred);
            }
            if self.wants_role(role) {
                out.push(role);
            }
            i = i + 1;
        }
        assert(all_roles().subrange(0, ROLE_COUNT as int) =~= all_roles());
        out
    }

    /// The roles to create for this session, each as its platform name and its
    /// key.
    pub fn get_roles_to_create(&self) -> (r: Vec<(String, String)>)
        ensures
            r@.len() == self.desired().len(),
            forall|i: int|
                0 <= i < r@.len() ==> (#[trigger] r@[i]).0@ == role_name(self.desired()[i])
                    && r@[i].1@ == role_key(self.desired()[i]),
    {
        let roles = self.desired_roles();
        let mut out: Vec<(String, String)> = Vec::new();
        let mut i: usize = 0;
        while i < roles.len()
            invariant
                0 <= i <= roles@.len(),
                roles@ == self.desired(),
                out@.len() == i,
                forall|j: int|
                    0 <= j < i ==> (#[trigger] out@[j]).0@ == role_name(roles@[j]) && out@[j].1@
                        == role_key(roles@[j]),
            decreases roles@.len() - i,
        {
            let role = roles[i];
            out.push((role.display_name().to_owned(), role.key()));
            i = i + 1;
        }
        out
    }
}

} // verus!
