//! Pending verifications: short-lived tokens, each standing for one request
//! to link one platform account to one single-sign-on account.
//!
//! This is the in-process side of the registry. The durable store is written
//! by the caller, which treats it as the authority: a token is handed out only
//! once its durable write has succeeded.

use vstd::prelude::*;
use vstd::hash_map::StringHashMap;

verus! {

/// How long a token stays valid, in seconds.
pub const VERIFICATION_TTL_SECS: i64 = 600;

/// Relies on `uuid::Uuid::new_v4` for a random token, written in the
/// hyphenated form that `Uuid`'s `Display` gives (36 characters).
#[verifier::external_body]
fn new_token() -> (r: String)
    ensures
        r@.len() == 36,
{
    uuid::Uuid::new_v4().to_string()
}

/// Relies on `chrono::Utc::now` and `DateTime::timestamp`: the current time in
/// whole seconds since the Unix epoch. Nothing is known of the value.
#[verifier::external_body]
pub(crate) fn current_timestamp() -> (r: i64) {
    chrono::Utc::now().timestamp()
}

/// A request to link the account `discord_user_id` (named
/// `discord_username`), made on server `guild_id` at time `created_at`.
#[derive(Debug)]
pub struct PendingVerification {
    pub discord_user_id: u64,
    pub discord_username: String,
    pub guild_id: u64,
    pub created_at: i64,
}

impl PendingVerification {
    pub fn duplicate(&self) -> (r: PendingVerification)
        ensures
            r == *self,
    {
        PendingVerification {
            discord_user_id: self.discord_user_id,
            discord_username: self.discord_username.clone(),
            guild_id: self.guild_id,
            created_at: self.created_at,
        }
    }
}

/// Whether a request made at `rec.created_at` is still valid at `now`.
pub open spec fn is_live(rec: PendingVerification, now: i64) -> bool {
    (now as int) - (rec.created_at as int) < VERIFICATION_TTL_SECS as int
}

/// What looking a token up at `now` gives: its request, unless there is none
/// or it has expired.
pub open spec fn lookup_spec(
    m: Map<Seq<char>, PendingVerification>,
    token: Seq<char>,
    now: i64,
) -> Option<PendingVerification> {
    if m.contains_key(token) && is_live(m[token], now) {
        Some(m[token])
    } else {
        None
    }
}

/// The pending requests, by token.
pub struct PendingRegistry {
    entries: StringHashMap<PendingVerification>,
}

impl View for PendingRegistry {
    type V = Map<Seq<char>, PendingVerification>;

    closed spec fn view(&self) -> Map<Seq<char>, PendingVerification> {
        self.entries@
    }
}

impl PendingRegistry {
    pub fn new() -> (r: PendingRegistry)
        ensures
            r@ == Map::<Seq<char>, PendingVerification>::empty(),
    {
        PendingRegistry { entries: StringHashMap::new() }
    }

    /// Records `rec` under `token` unless that token is already pending, and
    /// hands both back; gives `None`, and changes nothing, when it is.
    pub fn insert_new(&mut self, token: String, rec: PendingVerification) -> (r: Option<
        (String, PendingVerification),
    >)
        ensures
            old(self)@.contains_key(token@) <==> r is None,
            match r {
                Some((t, v)) => t == token && v == rec && final(self)@ == old(self)@.insert(
                    token@,
                    rec,
                ),
                None => final(self)@ == old(self)@,
            },
    {
        if self.entries.contains_key(token.as_str()) {
            return None;
        }
        self.entries.insert(token.clone(), rec.duplicate());
        Some((token, rec))
    }

    /// Records a request made now under a fresh random token and returns the
    /// token with the request. Gives `None`, and changes nothing, in the
    /// unlikely case that the drawn token is already pending.
    pub fn create(&mut self, discord_user_id: u64, discord_username: String, guild_id: u64) -> (r:
        Option<(String, PendingVerification)>)
        ensures
            match r {
                Some((token, rec)) => {
                    &&& !old(self)@.contains_key(token@)
                    &&& token@.len() == 36
                    &&& rec.discord_user_id == discord_user_id
                    &&& rec.discord_username == discord_username
                    &&& rec.guild_id == guild_id
                    &&& final(self)@ == old(self)@.insert(token@, rec)
                },
                None => final(self)@ == old(self)@ && exists|t: Seq<char>|
                    t.len() == 36 && #[trigger] old(self)@.contains_key(t),
            },
    {
        let token = new_token();
        let rec = PendingVerification {
            discord_user_id,
            discord_username,
            guild_id,
            created_at: current_timestamp(),
        };
        let ghost drawn = token@;
        let r = self.insert_new(token, rec);
        assert(r is None ==> old(self)@.contains_key(drawn));
        r
    }

    /// Puts back a request read from the durable store.
    pub fn restore(&mut self, token: String, rec: PendingVerification)
        ensures
            final(self)@ == old(self)@.insert(token@, rec),
    {
        self.entries.insert(token, rec);
    }

    /// The request under `token` at time `now`, unless there is none or it
    /// has expired.
    pub fn lookup_at(&self, token: &str, now: i64) -> (r: Option<PendingVerification>)
        ensures
            r == lookup_spec(self@, token@, now),
    {
        match self.entries.get(token) {
            Some(rec) => {
                if (now as i128) - (rec.created_at as i128) < VERIFICATION_TTL_SECS as i128 {
                    Some(rec.duplicate())
                } else {
                    None
                }
            },
            None => None,
        }
    }

    /// The request under `token` now, unless there is none or it has expired.
    pub fn lookup(&self, token: &str) -> (r: Option<PendingVerification>)
        ensures
            exists|now: i64| r == lookup_spec(self@, token@, now),
    {
        let now = current_timestamp();
        self.lookup_at(token, now)
    }

    /// Removes the request under `token`; removing one that is not there does
    /// nothing.
    pub fn consume(&mut self, token: &str)
        ensures
            final(self)@ == old(self)@.remove(token@),
    {
        self.entries.remove(token);
    }
}

/// Once a token is consumed it no longer resolves, and consuming it again
/// changes nothing.
pub proof fn lemma_consume_is_final(
    m: Map<Seq<char>, PendingVerification>,
    token: Seq<char>,
    now: i64,
)
    ensures
        lookup_spec(m.remove(token), token, now) is None,
        m.remove(token).remove(token) == m.remove(token),
{
    assert(m.remove(token).remove(token) =~= m.remove(token));
}

} // verus!
