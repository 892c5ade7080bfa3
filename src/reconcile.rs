//! Bringing a server's live roles in line with a committed setup session.
//!
//! The stored mapping holds one optional role id per role. A commit first
//! plans one action per role from the stored mapping, the session and the
//! roles that exist on the platform; the caller then carries out each action
//! and records its outcome at once, so that a run cut short keeps every step
//! already taken.

use vstd::prelude::*;
use crate::roles::{
    lemma_role_at, lemma_role_index, mode_covers, mode_of_name, role_at, role_index, role_name,
    same_text, Role, RoleMode, ROLE_COUNT,
};
use crate::session::SetupRolesSession;
use crate::text::{decimal_value, parse_u64};

verus! {

/// A role as it exists on the platform.
#[derive(Debug, Clone)]
pub struct LiveRole {
    pub id: u64,
    pub name: String,
}

pub open spec fn live_has(live: Seq<LiveRole>, id: u64) -> bool {
    exists|i: int| 0 <= i < live.len() && (#[trigger] live[i]).id == id
}

/// The id of the first live role with the given name.
pub open spec fn first_named(live: Seq<LiveRole>, name: Seq<char>) -> Option<u64>
    decreases live.len(),
{
    if live.len() == 0 {
        None
    } else if live[0].name@ == name {
        Some(live[0].id)
    } else {
        first_named(live.subrange(1, live.len() as int), name)
    }
}

/// What a commit does for one role.
#[derive(Debug, Clone, Copy, PartialEq, Eq, Structural)]
pub enum RoleAction {
    /// The role is neither configured nor asked for.
    Untouched,
    /// The role is configured but no longer asked for: delete it on the
    /// platform when it is still there, and drop its mapping either way.
    Delete { id: u64, live: bool },
    /// The role is asked for and a live role already carries its name: record
    /// that role's id.
    Reuse { id: u64 },
    /// The role is asked for and nothing carries its name: create it.
    Create,
    /// The role is configured, asked for, and still there.
    Keep { id: u64 },
    /// The role is configured and asked for but was deleted on the platform:
    /// create it again under the same key.
    Recreate,
}

impl RoleAction {
    /// Whether carrying out the action creates a role on the platform.
    pub open spec fn creates_role(self) -> bool {
        self is Create || self is Recreate
    }
}

/// How an action that the caller carried out went.
#[derive(Debug, Clone, Copy, PartialEq, Eq, Structural)]
pub enum StepOutcome {
    /// Done, with nothing to report.
    Done,
    /// A role was created with this id.
    Created(u64),
    /// The platform call failed.
    Failed,
}

/// The id that the stored mapping gives a role under the stored mode.
pub open spec fn current_id(mode: RoleMode, ids: Seq<Option<u64>>, r: Role) -> Option<u64> {
    if mode_covers(mode, r) {
        ids[role_index(r)]
    } else {
        None
    }
}

/// The action planned for role `r`.
pub open spec fn planned_action(
    mode: RoleMode,
    ids: Seq<Option<u64>>,
    wanted: bool,
    live: Seq<LiveRole>,
    r: Role,
) -> RoleAction {
    match current_id(mode, ids, r) {
        Some(id) => if wanted {
            if live_has(live, id) {
                RoleAction::Keep { id }
            } else {
                RoleAction::Recreate
            }
        } else {
            RoleAction::Delete { id, live: live_has(live, id) }
        },
        None => if wanted {
            match first_named(live, role_name(r)) {
                Some(id) => RoleAction::Reuse { id },
                None => RoleAction::Create,
            }
        } else {
            RoleAction::Untouched
        },
    }
}

/// Whether carrying out an action calls the platform to create or delete.
pub open spec fn calls_platform(a: RoleAction) -> bool {
    match a {
        RoleAction::Delete { live, .. } => live,
        RoleAction::Create | RoleAction::Recreate => true,
        _ => false,
    }
}

/// The role's stored id once an action has been carried out with an outcome:
/// a step changes the mapping only when its platform call succeeded.
pub open spec fn slot_after(a: RoleAction, o: StepOutcome, before: Option<u64>) -> Option<u64> {
    match a {
        RoleAction::Delete { live, .. } => if live && o is Failed {
            before
        } else {
            None
        },
        RoleAction::Reuse { id } => Some(id),
        RoleAction::Create | RoleAction::Recreate => match o {
            StepOutcome::Created(id) => Some(id),
            _ => before,
        },
        _ => before,
    }
}

/// The stored ids after a whole run with the given outcomes, one per role.
pub open spec fn run_result(
    mode: RoleMode,
    ids: Seq<Option<u64>>,
    session: SetupRolesSession,
    live: Seq<LiveRole>,
    outcomes: Seq<StepOutcome>,
) -> Seq<Option<u64>> {
    Seq::new(
        ROLE_COUNT as nat,
        |i: int|
            slot_after(
                planned_action(mode, ids, session.wants(role_at(i)), live, role_at(i)),
                outcomes[i],
                ids[i],
            ),
    )
}

/// Whether every stored id belongs to a role of the stored mode.
pub open spec fn holds_own_mode_only(mode: RoleMode, ids: Seq<Option<u64>>) -> bool {
    forall|i: int| 0 <= i < ROLE_COUNT && (#[trigger] ids[i]) is Some ==> mode_covers(mode, role_at(i))
}

/// The stored role configuration of a server: its mode and one optional role
/// id per role, in the roles' fixed order.
#[derive(Debug, Clone)]
pub struct StoredRoles {
    pub mode: RoleMode,
    pub ids: Vec<Option<u64>>,
}

impl StoredRoles {
    pub open spec fn wf(&self) -> bool {
        self.ids@.len() == ROLE_COUNT
    }

    /// No mode and no roles configured.
    pub fn new() -> (r: StoredRoles)
        ensures
            r.wf(),
            r.mode == RoleMode::VerifiedOnly,
            forall|i: int| 0 <= i < ROLE_COUNT ==> r.ids@[i] is None,
            holds_own_mode_only(r.mode, r.ids@),
    {
        let mut ids: Vec<Option<u64>> = Vec::new();
        let mut i: usize = 0;
        while i < ROLE_COUNT
            invariant
                0 <= i <= ROLE_COUNT,
                ids@.len() == i,
                forall|j: int| 0 <= j < i ==> ids@[j] is None,
            decreases ROLE_COUNT - i,
        {
            ids.push(None);
            i = i + 1;
        }
        StoredRoles { mode: RoleMode::VerifiedOnly, ids }
    }

    /// Reads the stored mode name and the stored value of each role's key, in
    /// the roles' fixed order. A missing mode means no mode; a value that is
    /// not a decimal id counts as not configured, and so does the key of a
    /// role outside the stored mode.
    pub fn from_store(mode: Option<&str>, values: &Vec<Option<String>>) -> (r: StoredRoles)
        requires
            values@.len() == ROLE_COUNT,
        ensures
            r.wf(),
            r.mode == match mode {
                Some(m) => mode_of_name(m@),
                None => RoleMode::VerifiedOnly,
            },
            forall|i: int|
                0 <= i < ROLE_COUNT ==> #[trigger] r.ids@[i] == if mode_covers(r.mode, role_at(i)) {
                    match values@[i] {
                        Some(v) => decimal_value(v@),
                        None => None,
                    }
                } else {
                    None
                },
            holds_own_mode_only(r.mode, r.ids@),
    {
        let m = match mode {
            Some(name) => RoleMode::from_str(name),
            None => RoleMode::VerifiedOnly,
        };
        let mut ids: Vec<Option<u64>> = Vec::new();
        let mut i: usize = 0;
        while i < ROLE_COUNT
            invariant
                0 <= i <= ROLE_COUNT,
                values@.len() == ROLE_COUNT,
                ids@.len() == i,
                forall|j: int|
                    0 <= j < i ==> #[trigger] ids@[j] == if mode_covers(m, role_at(j)) {
                        match values@[j] {
                            Some(v) => decimal_value(v@),
                            None => None,
                        }
                    } else {
                        None
                    },
            decreases ROLE_COUNT - i,
        {
            let id = if m.covers(Role::at(i)) {
                match &values[i] {
                    Some(v) => parse_u64(v.as_str()),
                    None => None,
                }
            } else {
                None
            };
            ids.push(id);
            i = i + 1;
        }
        StoredRoles { mode: m, ids }
    }

    /// The id stored for a role under the stored mode.
    pub fn current(&self, r: Role) -> (id: Option<u64>)
        requires
            self.wf(),
        ensures
            id == current_id(self.mode, self.ids@, r),
    {
        if self.mode.covers(r) {
            self.ids[r.index()]
        } else {
            None
        }
    }

    /// One action per role, in the roles' fixed order, that brings the live
    /// roles in line with `session`.
    pub fn plan(&self, session: &SetupRolesSession, live: &Vec<LiveRole>) -> (r: Vec<RoleAction>)
        requires
            self.wf(),
        ensures
            r@.len() == ROLE_COUNT,
            forall|i: int|
                0 <= i < ROLE_COUNT ==> #[trigger] r@[i] == planned_action(
                    self.mode,
                    self.ids@,
                    session.wants(role_at(i)),
                    live@,
                    role_at(i),
                ),
    {
        let mut out: Vec<RoleAction> = Vec::new();
        let mut i: usize = 0;
        while i < ROLE_COUNT
            invariant
                0 <= i <= ROLE_COUNT,
                self.wf(),
                out@.len() == i,
                forall|j: int|
                    0 <= j < i ==> #[trigger] out@[j] == planned_action(
                        self.mode,
                        self.ids@,
                        session.wants(role_at(j)),
                        live@,
                        role_at(j),
                    ),
            decreases ROLE_COUNT - i,
        {
            let role = Role::at(i);
            let wanted = session.wants_role(role);
            let action = match self.current(role) {
                Some(id) => {
                    let present = contains_role(live, id);
                    if wanted {
                        if present {
                            RoleAction::Keep { id }
                        } else {
                            RoleAction::Recreate
                        }
                    } else {
                        RoleAction::Delete { id, live: present }
                    }
                },
                None => {
                    if wanted {
                        match find_named(live, role.display_name()) {
                            Some(id) => RoleAction::Reuse { id },
                            None => RoleAction::Create,
                        }
                    } else {
                        RoleAction::Untouched
                    }
                },
            };
            out.push(action);
            i = i + 1;
        }
        out
    }

    /// Records how the action planned for the role at `index` went.
    pub fn record(&mut self, index: usize, action: RoleAction, outcome: StepOutcome)
        requires
            old(self).wf(),
            index < ROLE_COUNT,
        ensures
            final(self).wf(),
            final(self).mode == old(self).mode,
            final(self).ids@ == old(self).ids@.update(
                index as int,
                slot_after(action, outcome, old(self).ids@[index as int]),
            ),
    {
        let before = self.ids[index];
        let after = match action {
            RoleAction::Delete { live, .. } => if live && outcome == StepOutcome::Failed {
                before
            } else {
                None
            },
            RoleAction::Reuse { id } => Some(id),
            RoleAction::Create | RoleAction::Recreate => match outcome {
                StepOutcome::Created(id) => Some(id),
                _ => before,
            },
            _ => before,
        };
        self.ids.set(index, after);
    }

    /// Makes `mode` the stored mode, once every action has been recorded.
    pub fn set_mode(&mut self, mode: RoleMode)
        ensures
            final(self).mode == mode,
            final(self).ids == old(self).ids,
    {
        self.mode = mode;
    }

    /// The roles configured under the stored mode, with their ids, in the
    /// roles' fixed order.
    pub fn configured(&self) -> (r: Vec<(Role, u64)>)
        requires
            self.wf(),
        ensures
            forall|k: int|
                0 <= k < r@.len() ==> current_id(self.mode, self.ids@, (#[trigger] r@[k]).0)
                    == Some(r@[k].1),
            forall|x: Role|
                current_id(self.mode, self.ids@, x) is Some ==> exists|k: int|
                    0 <= k < r@.len() && (#[trigger] r@[k]).0 == x,
            forall|k1: int, k2: int|
                0 <= k1 < k2 < r@.len() ==> role_index((#[trigger] r@[k1]).0) < role_index(
                    (#[trigger] r@[k2]).0,
                ),
    {
        let mut out: Vec<(Role, u64)> = Vec::new();
        let mut i: usize = 0;
        while i < ROLE_COUNT
            invariant
                0 <= i <= ROLE_COUNT,
                self.wf(),
                forall|k: int|
                    0 <= k < out@.len() ==> current_id(self.mode, self.ids@, (#[trigger] out@[k]).0)
                        == Some(out@[k].1),
                forall|j: int|
                    0 <= j < i ==> current_id(self.mode, self.ids@, #[trigger] role_at(j)) is Some
                        ==> exists|k: int| 0 <= k < out@.len() && (#[trigger] out@[k]).0 == role_at(j),
                forall|k: int| 0 <= k < out@.len() ==> role_index((#[trigger] out@[k]).0) < i,
                forall|k1: int, k2: int|
                    0 <= k1 < k2 < out@.len() ==> role_index((#[trigger] out@[k1]).0) < role_index(
                        (#[trigger] out@[k2]).0,
                    ),
            decreases ROLE_COUNT - i,
        {
            let role = Role::at(i);
            let ghost before = out@;
            match self.current(role) {
                Some(id) => {
                    out.push((role, id));
                    assert(out@[out@.len() - 1].0 == role_at(i as int));
                    proof {
                        lemma_role_at(i as int);
                        assert forall|k: int| 0 <= k < before.len() implies out@[k] == before[k] by {}
                    }
                    assert forall|j: int|
                        0 <= j < i && current_id(self.mode, self.ids@, #[trigger] role_at(j))
                            is Some implies exists|k: int|
                        0 <= k < out@.len() && (#[trigger] out@[k]).0 == role_at(j) by {
                        let k0 = choose|k: int| 0 <= k < before.len() && (#[trigger] before[k]).0 == role_at(j);
                        assert(out@[k0] == before[k0]);
                    }
                },
                None => {},
            }
            i = i + 1;
        }
        assert forall|x: Role| current_id(self.mode, self.ids@, x) is Some implies exists|k: int|
            0 <= k < out@.len() && (#[trigger] out@[k]).0 == x by {
            lemma_role_index(x);
            assert(role_at(role_index(x)) == x);
        }
        out
    }
}

/// The actions of a commit: none at all, and the validation message, when
/// the session does not validate; otherwise the plan.
pub fn plan_commit(session: &SetupRolesSession, stored: &StoredRoles, live: &Vec<LiveRole>) -> (r:
    Result<Vec<RoleAction>, &'static str>)
    requires
        stored.wf(),
    ensures
        match r {
            Err(m) => (session.mode == RoleMode::Custom && session.custom_roles@.len() == 0) && m@
                == crate::session::empty_custom_message(),
            Ok(plan) => !(session.mode == RoleMode::Custom && session.custom_roles@.len() == 0)
                && plan@.len() == ROLE_COUNT && forall|i: int|
                0 <= i < ROLE_COUNT ==> #[trigger] plan@[i] == planned_action(
                    stored.mode,
                    stored.ids@,
                    session.wants(role_at(i)),
                    live@,
                    role_at(i),
                ),
        },
{
    match session.validate() {
        Err(m) => Err(m),
        Ok(()) => Ok(stored.plan(session, live)),
    }
}

/// Whether a role with this id exists on the platform.
pub fn contains_role(live: &Vec<LiveRole>, id: u64) -> (r: bool)
    ensures
        r == live_has(live@, id),
{
    let mut i: usize = 0;
    while i < live.len()
        invariant
            0 <= i <= live@.len(),
            forall|j: int| 0 <= j < i ==> (#[trigger] live@[j]).id != id,
        decreases live@.len() - i,
    {
        if live[i].id == id {
            return true;
        }
        i = i + 1;
    }
    false
}

/// The id of the first live role named `name`.
pub fn find_named(live: &Vec<LiveRole>, name: &str) -> (r: Option<u64>)
    ensures
        r == first_named(live@, name@),
{
    let mut i: usize = 0;
    assert(live@.subrange(0, live@.len() as int) =~= live@);
    while i < live.len()
        invariant
            0 <= i <= live@.len(),
            first_named(live@, name@) == first_named(live@.subrange(i as int, live@.len() as int), name@),
        decreases live@.len() - i,
    {
        let ghost rest = live@.subrange(i as int, live@.len() as int);
        assert(rest[0] == live@[i as int]);
        if same_text(live[i].name.as_str(), name) {
            return Some(live[i].id);
        }
        assert(rest.subrange(1, rest.len() as int) =~= live@.subrange(i + 1, live@.len() as int));
        i = i + 1;
    }
    assert(live@.subrange(i as int, live@.len() as int).len() == 0);
    None
}

/// Re-running a commit of the same session, once the first run has completed
/// (every platform call succeeded) and every role it left configured still
/// exists, calls the platform for nothing and leaves the stored ids as they
/// are. The stored mapping holds ids only for roles of its own mode, as
/// `StoredRoles::from_store` gives it, and the first run leaves it so under
/// the new mode.
pub proof fn lemma_reconcile_idempotent(
    mode: RoleMode,
    ids: Seq<Option<u64>>,
    session: SetupRolesSession,
    live: Seq<LiveRole>,
    outcomes: Seq<StepOutcome>,
    live2: Seq<LiveRole>,
    outcomes2: Seq<StepOutcome>,
)
    requires
        ids.len() == ROLE_COUNT,
        outcomes.len() == ROLE_COUNT,
        outcomes2.len() == ROLE_COUNT,
        holds_own_mode_only(mode, ids),
        forall|i: int|
            0 <= i < ROLE_COUNT && (#[trigger] planned_action(
                mode,
                ids,
                session.wants(role_at(i)),
                live,
                role_at(i),
            )) is Delete ==> !(outcomes[i] is Failed),
        forall|i: int|
            0 <= i < ROLE_COUNT && (#[trigger] planned_action(
                mode,
                ids,
                session.wants(role_at(i)),
                live,
                role_at(i),
            )).creates_role() ==> outcomes[i] is Created,
        forall|i: int|
            0 <= i < ROLE_COUNT && (#[trigger] run_result(mode, ids, session, live, outcomes)[i]) is Some
                ==> live_has(live2, run_result(mode, ids, session, live, outcomes)[i]->0),
    ensures
        holds_own_mode_only(session.mode, run_result(mode, ids, session, live, outcomes)),
        forall|i: int|
            0 <= i < ROLE_COUNT ==> !calls_platform(
                #[trigger] planned_action(
                    session.mode,
                    run_result(mode, ids, session, live, outcomes),
                    session.wants(role_at(i)),
                    live2,
                    role_at(i),
                ),
            ),
        run_result(
            session.mode,
            run_result(mode, ids, session, live, outcomes),
            session,
            live2,
            outcomes2,
        ) == run_result(mode, ids, session, live, outcomes),
{
    let ids1 = run_result(mode, ids, session, live, outcomes);
    assert forall|i: int| 0 <= i < ROLE_COUNT implies {
        &&& !calls_platform(
            #[trigger] planned_action(
                session.mode,
                ids1,
                session.wants(role_at(i)),
                live2,
                role_at(i),
            ),
        )
        &&& slot_after(
            planned_action(session.mode, ids1, session.wants(role_at(i)), live2, role_at(i)),
            outcomes2[i],
            ids1[i],
        ) == ids1[i]
    } by {
        let r = role_at(i);
        lemma_role_at(i);
        let a1 = planned_action(mode, ids, session.wants(r), live, r);
        assert(ids1[i] == slot_after(a1, outcomes[i], ids[i]));
        assert(!(ids[i] is Some) || mode_covers(mode, r));
        if session.wants(r) {
            assert(mode_covers(session.mode, r));
            assert(ids1[i] is Some);
            assert(live_has(live2, ids1[i]->0));
        } else {
            assert(ids1[i] is None);
        }
    }
    assert(run_result(session.mode, ids1, session, live2, outcomes2) =~= ids1);
    assert forall|i: int| 0 <= i < ROLE_COUNT && (#[trigger] ids1[i]) is Some implies mode_covers(
        session.mode,
        role_at(i),
    ) by {
        let r = role_at(i);
        lemma_role_at(i);
        assert(!(ids[i] is Some) || mode_covers(mode, r));
        if !session.wants(r) {
            assert(ids1[i] is None);
        }
    }
}

/// A role that is kept by a commit but was deleted on the platform since the
/// last run is created again under the same key, and the stored mapping takes
/// the new id.
pub proof fn lemma_reconcile_recreates_lost_role(
    mode: RoleMode,
    ids: Seq<Option<u64>>,
    session: SetupRolesSession,
    live: Seq<LiveRole>,
    outcomes: Seq<StepOutcome>,
    r: Role,
    fresh: u64,
)
    requires
        ids.len() == ROLE_COUNT,
        outcomes.len() == ROLE_COUNT,
        current_id(mode, ids, r) is Some,
        session.wants(r),
        !live_has(live, current_id(mode, ids, r)->0),
        outcomes[role_index(r)] == StepOutcome::Created(fresh),
    ensures
        planned_action(mode, ids, session.wants(r), live, r) == RoleAction::Recreate,
        run_result(mode, ids, session, live, outcomes)[role_index(r)] == Some(fresh),
{
    lemma_role_index(r);
}

} // verus!
