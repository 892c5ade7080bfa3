//! Links between chat-platform accounts and single-sign-on accounts.
//!
//! Each side maps to at most one account on the other side. Linking a pair
//! that is already linked changes nothing; linking an account that is bound
//! to someone else is refused until that link is removed.

use vstd::prelude::*;
use vstd::hash_map::{HashMapWithView, StringHashMap};
use crate::error::AppError;

verus! {

broadcast use vstd::std_specs::hash::group_hash_axioms;

/// What linking a pair amounts to, given what each side is linked to now.
#[derive(Debug, Clone, Copy, PartialEq, Eq, Structural)]
pub enum LinkDecision {
    /// The pair is already linked both ways: nothing to write.
    AlreadyLinked,
    /// Write both directions.
    Link,
    /// One side is bound to a different account.
    Conflict,
}

pub open spec fn link_decision(
    platform_id: u64,
    sso: Seq<char>,
    sso_of_platform: Option<Seq<char>>,
    platform_of_sso: Option<u64>,
) -> LinkDecision {
    if (sso_of_platform is Some && sso_of_platform->0 != sso) || (platform_of_sso is Some
        && platform_of_sso->0 != platform_id) {
        LinkDecision::Conflict
    } else if sso_of_platform == Some(sso) && platform_of_sso == Some(platform_id) {
        LinkDecision::AlreadyLinked
    } else {
        LinkDecision::Link
    }
}

/// Decides a link from what the store holds for each side.
pub fn decide_link(
    platform_id: u64,
    sso: &str,
    sso_of_platform: Option<&str>,
    platform_of_sso: Option<u64>,
) -> (r: LinkDecision)
    ensures
        r == link_decision(
            platform_id,
            sso@,
            match sso_of_platform {
                Some(s) => Some(s@),
                None => None,
            },
            platform_of_sso,
        ),
{
    let same_sso = match sso_of_platform {
        Some(s) => Some(crate::roles::same_text(s, sso)),
        None => None,
    };
    let conflict = match same_sso {
        Some(b) => !b,
        None => false,
    } || match platform_of_sso {
        Some(p) => p != platform_id,
        None => false,
    };
    if conflict {
        LinkDecision::Conflict
    } else if same_sso == Some(true) && platform_of_sso == Some(platform_id) {
        LinkDecision::AlreadyLinked
    } else {
        LinkDecision::Link
    }
}

/// The links, both ways, with the time at which each was made.
pub struct IdentityLinks {
    by_platform: HashMapWithView<u64, (String, i64)>,
    by_sso: StringHashMap<u64>,
}

impl IdentityLinks {
    /// The single-sign-on account of each linked chat-platform account.
    pub closed spec fn forward(&self) -> Map<u64, Seq<char>> {
        Map::new(
            |p: u64| self.by_platform@.contains_key(p),
            |p: u64| self.by_platform@[p].0@,
        )
    }

    /// The chat-platform account of each linked single-sign-on account.
    pub closed spec fn backward(&self) -> Map<Seq<char>, u64> {
        self.by_sso@
    }

    /// When each chat-platform account was linked.
    pub closed spec fn linked_at(&self) -> Map<u64, i64> {
        Map::new(
            |p: u64| self.by_platform@.contains_key(p),
            |p: u64| self.by_platform@[p].1,
        )
    }

    /// What linking `p` and `s` amounts to in this table.
    pub open spec fn decision_for(&self, p: u64, s: Seq<char>) -> LinkDecision {
        link_decision(
            p,
            s,
            if self.forward().contains_key(p) {
                Some(self.forward()[p])
            } else {
                None
            },
            if self.backward().contains_key(s) {
                Some(self.backward()[s])
            } else {
                None
            },
        )
    }

    /// The two directions agree.
    pub open spec fn wf(&self) -> bool {
        &&& forall|p: u64| #[trigger]
            self.forward().contains_key(p) ==> self.backward().contains_key(self.forward()[p])
                && self.backward()[self.forward()[p]] == p
        &&& forall|s: Seq<char>| #[trigger]
            self.backward().contains_key(s) ==> self.forward().contains_key(self.backward()[s])
                && self.forward()[self.backward()[s]] == s
        &&& self.linked_at().dom() == self.forward().dom()
    }

    pub fn new() -> (r: IdentityLinks)
        ensures
            r.wf(),
            r.forward() == Map::<u64, Seq<char>>::empty(),
            r.backward() == Map::<Seq<char>, u64>::empty(),
    {
        let r = IdentityLinks { by_platform: HashMapWithView::new(), by_sso: StringHashMap::new() };
        assert(r.forward() =~= Map::<u64, Seq<char>>::empty());
        assert(r.linked_at() =~= Map::<u64, i64>::empty());
        r
    }

    /// The single-sign-on account linked to `platform_id`.
    pub fn sso_of(&self, platform_id: u64) -> (r: Option<&String>)
        ensures
            match r {
                Some(s) => self.forward().contains_key(platform_id) && self.forward()[platform_id]
                    == s@,
                None => !self.forward().contains_key(platform_id),
            },
    {
        match self.by_platform.get(&platform_id) {
            Some(entry) => Some(&entry.0),
            None => None,
        }
    }

    /// The chat-platform account linked to `sso`.
    pub fn platform_of(&self, sso: &str) -> (r: Option<u64>)
        ensures
            match r {
                Some(p) => self.backward().contains_key(sso@) && self.backward()[sso@] == p,
                None => !self.backward().contains_key(sso@),
            },
    {
        match self.by_sso.get(sso) {
            Some(p) => Some(*p),
            None => None,
        }
    }

    /// Links `platform_id` and `sso` at time `now`. Already linked: nothing
    /// changes. Either side bound elsewhere: `IdentityConflict`, nothing
    /// changes.
    pub fn link(&mut self, platform_id: u64, sso: &str, now: i64) -> (r: Result<(), AppError>)
        requires
            old(self).wf(),
        ensures
            final(self).wf(),
            match old(self).decision_for(platform_id, sso@) {
                LinkDecision::Conflict => r == Err::<(), AppError>(AppError::IdentityConflict)
                    && *final(self) == *old(self),
                LinkDecision::AlreadyLinked => r is Ok && *final(self) == *old(self)
                    && old(self).forward()[platform_id] == sso@,
                LinkDecision::Link => {
                    &&& r is Ok
                    &&& final(self).forward() == old(self).forward().insert(platform_id, sso@)
                    &&& final(self).backward() == old(self).backward().insert(sso@, platform_id)
                    &&& final(self).linked_at() == old(self).linked_at().insert(platform_id, now)
                },
            },
    {
        let current_sso = match self.sso_of(platform_id) {
            Some(s) => Some(s.as_str()),
            None => None,
        };
        let decision = decide_link(platform_id, sso, current_sso, self.platform_of(sso));
        match decision {
            LinkDecision::Conflict => Err(AppError::IdentityConflict),
            LinkDecision::AlreadyLinked => Ok(()),
            LinkDecision::Link => {
                let ghost f0 = self.forward();
                let ghost b0 = self.backward();
                self.by_platform.insert(platform_id, (sso.to_owned(), now));
                self.by_sso.insert(sso.to_owned(), platform_id);
                assert(self.forward() =~= f0.insert(platform_id, sso@));
                assert(self.backward() =~= b0.insert(sso@, platform_id));
                assert(self.linked_at() =~= old(self).linked_at().insert(platform_id, now));
                Ok(())
            },
        }
    }

    /// Removes the link of `platform_id`, both ways, and returns the
    /// single-sign-on account it was linked to. Without a link nothing
    /// changes.
    pub fn unlink(&mut self, platform_id: u64) -> (r: Option<String>)
        requires
            old(self).wf(),
        ensures
            final(self).wf(),
            match r {
                Some(s) => {
                    &&& old(self).forward().contains_key(platform_id)
                    &&& old(self).forward()[platform_id] == s@
                    &&& final(self).forward() == old(self).forward().remove(platform_id)
                    &&& final(self).backward() == old(self).backward().remove(s@)
                },
                None => !old(self).forward().contains_key(platform_id) && *final(self) == *old(
                    self,
                ),
            },
    {
        let sso = match self.by_platform.get(&platform_id) {
            Some(entry) => entry.0.clone(),
            None => return None,
        };
        let ghost f0 = self.forward();
        let ghost b0 = self.backward();
        let ghost t0 = self.linked_at();
        self.by_platform.remove(&platform_id);
        self.by_sso.remove(sso.as_str());
        assert(self.forward() =~= f0.remove(platform_id));
        assert(self.backward() =~= b0.remove(sso@));
        assert(self.linked_at() =~= t0.remove(platform_id));
        assert(f0.contains_key(platform_id) && f0[platform_id] == sso@);
        assert(b0[sso@] == platform_id);
        assert forall|q: u64| #[trigger] self.forward().contains_key(q) implies self.backward().contains_key(
            self.forward()[q],
        ) && self.backward()[self.forward()[q]] == q by {
            assert(f0.contains_key(q) && q != platform_id);
            assert(b0[f0[q]] == q);
        }
        Some(sso)
    }
}

/// Linking a pair twice is the same as linking it once.
pub proof fn lemma_link_twice(
    platform_id: u64,
    sso: Seq<char>,
    sso_of_platform: Option<Seq<char>>,
    platform_of_sso: Option<u64>,
)
    requires
        link_decision(platform_id, sso, sso_of_platform, platform_of_sso) != LinkDecision::Conflict,
    ensures
        link_decision(platform_id, sso, Some(sso), Some(platform_id)) == LinkDecision::AlreadyLinked,
{
}

/// On the link table: while `p` is linked to `s`, linking them again is
/// `AlreadyLinked`, which changes nothing; while `p` is linked to another
/// account, linking it to `s` is a conflict, which changes nothing either.
pub proof fn lemma_links_idempotent(links: IdentityLinks, p: u64, s: Seq<char>)
    requires
        links.wf(),
    ensures
        links.forward().contains_key(p) && links.forward()[p] == s ==> links.decision_for(p, s)
            == LinkDecision::AlreadyLinked,
        links.forward().contains_key(p) && links.forward()[p] != s ==> links.decision_for(p, s)
            == LinkDecision::Conflict,
{
}

} // verus!
