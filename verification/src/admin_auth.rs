//! Administrator capabilities, the session store of the admin web console
//! (sessions expire after a time to live measured from their last use) and
//! the session cookie.
use vstd::prelude::*;

use rand::Rng;

use crate::text::{from_chars, to_chars, trim, trim_chars};

verus! {

// ---------------------------------------------------------------------------
// Profiles and capabilities
// ---------------------------------------------------------------------------

/// The profile that may do everything.
pub const ADMIN_PROFILE_OWNER: &'static str = "owner";
/// The profile that manages the inventory and access but not administrators.
pub const ADMIN_PROFILE_OPERATOR: &'static str = "operator";
/// The profile that may only read the inventory and sessions.
pub const ADMIN_PROFILE_VIEWER: &'static str = "viewer";

/// A task of the admin console that a profile may or may not perform.
#[derive(Debug, Clone, Copy, PartialEq, Eq, Structural)]
pub enum AdminCapability {
    InventoryRead,
    AssetsManage,
    CredentialsManage,
    AccessManage,
    SessionsRead,
    AdminsManage,
}

/// What each fixed profile may do; an unknown profile may do nothing.
pub open spec fn profile_allows(profile: Seq<char>, capability: AdminCapability) -> bool {
    if profile == ADMIN_PROFILE_OWNER@ {
        true
    } else if profile == ADMIN_PROFILE_OPERATOR@ {
        capability != AdminCapability::AdminsManage
    } else if profile == ADMIN_PROFILE_VIEWER@ {
        capability == AdminCapability::InventoryRead || capability == AdminCapability::SessionsRead
    } else {
        false
    }
}

/// Whether a profile grants a capability.
pub fn profile_has_capability(profile: &str, capability: AdminCapability) -> (r: bool)
    ensures
        r == profile_allows(profile@, capability),
{
    if crate::text::str_eq(profile, ADMIN_PROFILE_OWNER) {
        true
    } else if crate::text::str_eq(profile, ADMIN_PROFILE_OPERATOR) {
        match capability {
            AdminCapability::AdminsManage => false,
            _ => true,
        }
    } else if crate::text::str_eq(profile, ADMIN_PROFILE_VIEWER) {
        match capability {
            AdminCapability::InventoryRead | AdminCapability::SessionsRead => true,
            _ => false,
        }
    } else {
        false
    }
}

/// The fixed profiles are nested: what a viewer may do an operator may, and
/// what an operator may do an owner may.
pub proof fn lemma_profiles_nested(capability: AdminCapability)
    ensures
        profile_allows(ADMIN_PROFILE_VIEWER@, capability) ==> profile_allows(ADMIN_PROFILE_OPERATOR@, capability),
        profile_allows(ADMIN_PROFILE_OPERATOR@, capability) ==> profile_allows(ADMIN_PROFILE_OWNER@, capability),
        profile_allows(ADMIN_PROFILE_OWNER@, capability),
{
    reveal_strlit("owner");
    reveal_strlit("operator");
    reveal_strlit("viewer");
    assert(ADMIN_PROFILE_OWNER@ == "owner"@);
    assert(ADMIN_PROFILE_OPERATOR@ == "operator"@);
    assert(ADMIN_PROFILE_VIEWER@ == "viewer"@);
    assert(ADMIN_PROFILE_OWNER@.len() == 5);
    assert(ADMIN_PROFILE_OPERATOR@.len() == 8);
    assert(ADMIN_PROFILE_VIEWER@.len() == 6);
}

/// What each fixed profile grants, capability by capability: an owner may do
/// everything; an operator everything but managing administrators (so also
/// inventory, assets, credentials, SSH access and the audit log); a viewer
/// only reads the inventory and the audit log; any other profile nothing.
pub proof fn lemma_profile_grants(capability: AdminCapability, other: Seq<char>)
    requires
        other != ADMIN_PROFILE_OWNER@,
        other != ADMIN_PROFILE_OPERATOR@,
        other != ADMIN_PROFILE_VIEWER@,
    ensures
        profile_allows(ADMIN_PROFILE_OWNER@, capability),
        profile_allows(ADMIN_PROFILE_OPERATOR@, AdminCapability::InventoryRead),
        profile_allows(ADMIN_PROFILE_OPERATOR@, AdminCapability::AssetsManage),
        profile_allows(ADMIN_PROFILE_OPERATOR@, AdminCapability::CredentialsManage),
        profile_allows(ADMIN_PROFILE_OPERATOR@, AdminCapability::AccessManage),
        profile_allows(ADMIN_PROFILE_OPERATOR@, AdminCapability::SessionsRead),
        !profile_allows(ADMIN_PROFILE_OPERATOR@, AdminCapability::AdminsManage),
        profile_allows(ADMIN_PROFILE_VIEWER@, AdminCapability::InventoryRead),
        profile_allows(ADMIN_PROFILE_VIEWER@, AdminCapability::SessionsRead),
        !profile_allows(ADMIN_PROFILE_VIEWER@, AdminCapability::AssetsManage),
        !profile_allows(ADMIN_PROFILE_VIEWER@, AdminCapability::CredentialsManage),
        !profile_allows(ADMIN_PROFILE_VIEWER@, AdminCapability::AccessManage),
        !profile_allows(ADMIN_PROFILE_VIEWER@, AdminCapability::AdminsManage),
        !profile_allows(other, capability),
{
    reveal_strlit("owner");
    reveal_strlit("operator");
    reveal_strlit("viewer");
    assert(ADMIN_PROFILE_OWNER@.len() == 5);
    assert(ADMIN_PROFILE_OPERATOR@.len() == 8);
    assert(ADMIN_PROFILE_VIEWER@.len() == 6);
}

// ---------------------------------------------------------------------------
// Random tokens
// ---------------------------------------------------------------------------

/// An ASCII letter or digit.
pub open spec fn is_alphanumeric(c: char) -> bool {
    ('A' <= c && c <= 'Z') || ('a' <= c && c <= 'z') || ('0' <= c && c <= '9')
}

/// `len` characters drawn from `rand::distributions::Alphanumeric` with the
/// thread-local generator. The contract claims what the distribution's
/// documentation and source show: each character is an ASCII letter or
/// digit; which ones come out is chance and is not stated.
#[verifier::external_body]
pub(crate) fn random_alphanumeric(len: usize) -> (r: String)
    ensures
        r@.len() == len,
        forall|i: int| 0 <= i < r@.len() ==> is_alphanumeric(#[trigger] r@[i]),
{
    rand::thread_rng().sample_iter(&rand::distributions::Alphanumeric).take(len).map(char::from).collect()
}

/// A fresh session or CSRF token: 48 random ASCII letters and digits.
pub fn random_token() -> (r: String)
    ensures
        r@.len() == 48,
        forall|i: int| 0 <= i < r@.len() ==> is_alphanumeric(#[trigger] r@[i]),
{
    random_alphanumeric(48)
}

// ---------------------------------------------------------------------------
// Sessions
// ---------------------------------------------------------------------------

/// How long, in milliseconds, an unused session stays valid by default.
pub const SESSION_TTL_MS: u64 = 1800000;

/// One signed-in administrator.
#[derive(Debug)]
pub struct AdminSession {
    pub csrf_token: String,
    pub admin_id: String,
    pub admin_label: String,
    pub access_profile: String,
    pub must_change_password: bool,
    /// When the session was last used, in milliseconds of a monotonic clock.
    pub last_seen: u64,
}

/// What a session holds.
pub struct SessionView {
    pub csrf_token: Seq<char>,
    pub admin_id: Seq<char>,
    pub admin_label: Seq<char>,
    pub access_profile: Seq<char>,
    pub must_change_password: bool,
    pub last_seen: u64,
}

impl View for AdminSession {
    type V = SessionView;

    open spec fn view(&self) -> SessionView {
        SessionView {
            csrf_token: self.csrf_token@,
            admin_id: self.admin_id@,
            admin_label: self.admin_label@,
            access_profile: self.access_profile@,
            must_change_password: self.must_change_password,
            last_seen: self.last_seen,
        }
    }
}

/// The session data handed to request handlers once a token is accepted.
#[derive(Debug, Clone, PartialEq, Eq)]
pub struct AuthenticatedSession {
    pub token: String,
    pub csrf_token: String,
    pub admin_id: String,
    pub admin_label: String,
    pub access_profile: String,
    pub must_change_password: bool,
}

/// The sessions of the admin console, keyed by session token.
#[derive(Debug)]
pub struct AdminSessions {
    entries: Vec<(String, AdminSession)>,
    ttl: u64,
}

/// A session table: token and session, in order of creation.
pub type SessionTable = Seq<(Seq<char>, SessionView)>;

/// The tokens of a table are distinct.
pub open spec fn tokens_distinct(t: SessionTable) -> bool {
    forall|i: int, j: int| 0 <= i < t.len() && 0 <= j < t.len() && i != j ==> #[trigger] t[i].0 != #[trigger] t[j].0
}

/// The session a token opens, if any.
pub open spec fn session_of(t: SessionTable, token: Seq<char>) -> Option<SessionView>
    decreases t.len(),
{
    if t.len() == 0 {
        None
    } else if t.last().0 == token {
        Some(t.last().1)
    } else {
        session_of(t.drop_last(), token)
    }
}

/// A session last used at `last_seen` is still valid at `now` (a clock
/// reading before `last_seen` counts as no time elapsed).
pub open spec fn alive(last_seen: u64, now: u64, ttl: u64) -> bool {
    now <= last_seen || now - last_seen <= ttl
}

/// Entries whose session is still valid at `now`.
pub open spec fn alive_at(now: u64, ttl: u64) -> spec_fn((Seq<char>, SessionView)) -> bool {
    |e: (Seq<char>, SessionView)| alive(e.1.last_seen, now, ttl)
}

/// Entries of other administrators than `admin_id`.
pub open spec fn admin_differs(admin_id: Seq<char>) -> spec_fn((Seq<char>, SessionView)) -> bool {
    |e: (Seq<char>, SessionView)| e.1.admin_id != admin_id
}

/// Entries of other tokens than `token`.
pub open spec fn token_differs(token: Seq<char>) -> spec_fn((Seq<char>, SessionView)) -> bool {
    |e: (Seq<char>, SessionView)| e.0 != token
}

/// The table without the sessions that expired by `now`.
pub open spec fn prune(t: SessionTable, now: u64, ttl: u64) -> SessionTable {
    t.filter(alive_at(now, ttl))
}

/// The table without the sessions of one administrator.
pub open spec fn without_admin(t: SessionTable, admin_id: Seq<char>) -> SessionTable {
    t.filter(admin_differs(admin_id))
}

/// The table without the session of one token.
pub open spec fn without_token(t: SessionTable, token: Seq<char>) -> SessionTable {
    t.filter(token_differs(token))
}

/// The table with the session of `token` marked as used at `now`.
pub open spec fn touch(t: SessionTable, token: Seq<char>, now: u64) -> SessionTable {
    t.map_values(|e: (Seq<char>, SessionView)| if e.0 == token { (e.0, SessionView { last_seen: now, ..e.1 }) } else { e })
}

/// The view of an authenticated session.
pub open spec fn authenticated_view(a: AuthenticatedSession) -> (Seq<char>, SessionView) {
    (a.token@, SessionView {
        csrf_token: a.csrf_token@,
        admin_id: a.admin_id@,
        admin_label: a.admin_label@,
        access_profile: a.access_profile@,
        must_change_password: a.must_change_password,
        last_seen: 0,
    })
}

/// The view of one stored entry.
pub open spec fn entry_view(e: (String, AdminSession)) -> (Seq<char>, SessionView) {
    (e.0@, e.1@)
}

/// Which entries a retain pass keeps: mode 0 the live ones, mode 1 those of
/// other administrators than `arg`, mode 2 those of other tokens than `arg`.
pub open spec fn keep_pred(mode: u8, arg: Seq<char>, now: u64, ttl: u64) -> spec_fn((Seq<char>, SessionView)) -> bool {
    if mode == 0 {
        alive_at(now, ttl)
    } else if mode == 1 {
        admin_differs(arg)
    } else {
        token_differs(arg)
    }
}

fn clone_entry(e: &(String, AdminSession)) -> (r: (String, AdminSession))
    ensures
        entry_view(r) == entry_view(*e),
{
    (
        e.0.clone(),
        AdminSession {
            csrf_token: e.1.csrf_token.clone(),
            admin_id: e.1.admin_id.clone(),
            admin_label: e.1.admin_label.clone(),
            access_profile: e.1.access_profile.clone(),
            must_change_password: e.1.must_change_password,
            last_seen: e.1.last_seen,
        },
    )
}

/// A session with its last use replaced.
pub open spec fn seen_at(s: SessionView, when: u64) -> SessionView {
    SessionView { last_seen: when, ..s }
}

impl View for AdminSessions {
    type V = SessionTable;

    closed spec fn view(&self) -> SessionTable {
        self.entries@.map_values(|e: (String, AdminSession)| entry_view(e))
    }
}

impl AdminSessions {
    /// The time to live of unused sessions, in milliseconds.
    pub closed spec fn ttl_ms(&self) -> u64 {
        self.ttl
    }

    /// The store's invariant: each token opens at most one session.
    pub closed spec fn wf(&self) -> bool {
        tokens_distinct(self@)
    }

    /// A well-formed store's tokens are distinct, as the session laws ask.
    pub proof fn lemma_wf_tokens_distinct(&self)
        requires
            self.wf(),
        ensures
            tokens_distinct(self@),
    {
    }

    /// An empty store whose unused sessions expire after `ttl` milliseconds.
    pub fn with_ttl(ttl: u64) -> (r: AdminSessions)
        ensures
            r.wf(),
            r@.len() == 0,
            r.ttl_ms() == ttl,
    {
        let r = AdminSessions { entries: Vec::new(), ttl };
        assert(r@ =~= Seq::<(Seq<char>, SessionView)>::empty());
        r
    }

    /// An empty store with the default time to live of thirty minutes.
    pub fn new() -> (r: AdminSessions)
        ensures
            r.wf(),
            r@.len() == 0,
            r.ttl_ms() == SESSION_TTL_MS,
    {
        AdminSessions::with_ttl(SESSION_TTL_MS)
    }

    proof fn lemma_len(&self)
        ensures
            self@.len() == self.entries@.len(),
    {
    }

    proof fn lemma_view_index(&self, i: int)
        requires
            0 <= i < self.entries@.len(),
        ensures
            self@[i] == entry_view(self.entries@[i]),
            self@.len() == self.entries@.len(),
    {
    }

    /// Keeps, in order, the entries that `keep_pred(mode, arg, now, ttl)` accepts.
    fn retain_where(&mut self, mode: u8, arg: &Vec<char>, now: u64)
        ensures
            final(self)@ == old(self)@.filter(keep_pred(mode, arg@, now, old(self).ttl)),
            final(self).ttl == old(self).ttl,
    {
        let ghost start = self@;
        let ghost keep = keep_pred(mode, arg@, now, self.ttl);
        let mut kept: Vec<(String, AdminSession)> = Vec::new();
        let n = self.entries.len();
        let mut i: usize = 0;
        while i < n
            invariant
                n == self.entries@.len(),
                i <= n,
                start == self@,
                keep == keep_pred(mode, arg@, now, self.ttl),
                kept@.map_values(|e: (String, AdminSession)| entry_view(e)) == start.take(i as int).filter(keep),
            decreases n - i,
        {
            let e = &self.entries[i];
            let ghost ev = entry_view(*e);
            assert(start[i as int] == ev);
            let keep_it = if mode == 0 {
                e.1.last_seen >= now || now - e.1.last_seen <= self.ttl
            } else if mode == 1 {
                !crate::text::chars_eq_str(arg, e.1.admin_id.as_str())
            } else {
                !crate::text::chars_eq_str(arg, e.0.as_str())
            };
            assert(keep_it == keep(ev));
            let ghost before = kept@;
            assert(start.take(i + 1).drop_last() =~= start.take(i as int));
            assert(start.take(i + 1).last() == ev);
            reveal_with_fuel(Seq::<(Seq<char>, SessionView)>::filter, 1);
            if keep_it {
                kept.push(clone_entry(e));
                assert(kept@.map_values(|e: (String, AdminSession)| entry_view(e)) =~= before.map_values(|e: (String, AdminSession)| entry_view(e)).push(ev));
            } else {
                assert(kept@ == before);
            }
            i += 1;
        }
        assert(start.take(n as int) =~= start);
        self.entries = kept;
        assert(self@ =~= kept@.map_values(|e: (String, AdminSession)| entry_view(e)));
    }

    /// Opens a session for an administrator at time `now` and returns its
    /// token, a fresh random token; the session gets its own random CSRF token.
    pub fn create(
        &mut self,
        admin_id: &str,
        admin_label: &str,
        access_profile: &str,
        must_change_password: bool,
        now: u64,
    ) -> (token: String)
        requires
            old(self).wf(),
        ensures
            final(self).wf(),
            final(self).ttl_ms() == old(self).ttl_ms(),
            token@.len() == 48,
            final(self)@ == without_token(old(self)@, token@).push((token@, final(self)@.last().1)),
            final(self)@.last().1.admin_id == admin_id@,
            final(self)@.last().1.admin_label == admin_label@,
            final(self)@.last().1.access_profile == access_profile@,
            final(self)@.last().1.must_change_password == must_change_password,
            final(self)@.last().1.last_seen == now,
            final(self)@.last().1.csrf_token.len() == 48,
    {
        let token = random_token();
        let csrf_token = random_token();
        let t = to_chars(token.as_str());
        self.retain_where(2, &t, now);
        proof {
            lemma_filter_keeps_distinct(old(self)@, token_differs(t@));
            lemma_filter_drops(old(self)@, token_differs(t@));
        }
        let ghost mid = self@;
        self.entries.push(
            (
                token.clone(),
                AdminSession {
                    csrf_token,
                    admin_id: admin_id.to_string(),
                    admin_label: admin_label.to_string(),
                    access_profile: access_profile.to_string(),
                    must_change_password,
                    last_seen: now,
                },
            ),
        );
        assert(self@ =~= mid.push(self@.last()));
        proof {
            assert forall|i: int, j: int| 0 <= i < self@.len() && 0 <= j < self@.len() && i != j implies #[trigger] self@[i].0 != #[trigger] self@[j].0 by {
                if i < mid.len() && j < mid.len() {
                    assert(self@[i] == mid[i]);
                    assert(self@[j] == mid[j]);
                } else if i < mid.len() {
                    assert(self@[i] == mid[i]);
                    assert(mid[i].0 != t@);
                } else if j < mid.len() {
                    assert(self@[j] == mid[j]);
                    assert(mid[j].0 != t@);
                }
            }
        }
        token
    }

    /// Ends the session of a token.
    pub fn remove(&mut self, token: &str)
        requires
            old(self).wf(),
        ensures
            final(self).wf(),
            final(self).ttl_ms() == old(self).ttl_ms(),
            final(self)@ == without_token(old(self)@, token@),
    {
        let t = to_chars(token);
        self.retain_where(2, &t, 0);
        proof {
            lemma_filter_keeps_distinct(old(self)@, token_differs(t@));
        }
    }

    /// Ends every session of one administrator and no other.
    pub fn remove_admin(&mut self, admin_id: &str)
        requires
            old(self).wf(),
        ensures
            final(self).wf(),
            final(self).ttl_ms() == old(self).ttl_ms(),
            final(self)@ == without_admin(old(self)@, admin_id@),
    {
        let a = to_chars(admin_id);
        self.retain_where(1, &a, 0);
        proof {
            lemma_filter_keeps_distinct(old(self)@, admin_differs(a@));
        }
    }

    /// Drops the sessions that expired by `now`; then, if the token opens a
    /// session, marks it as used at `now` and returns its data.
    pub fn authenticate(&mut self, token: &str, now: u64) -> (r: Option<AuthenticatedSession>)
        requires
            old(self).wf(),
        ensures
            final(self).wf(),
            final(self).ttl_ms() == old(self).ttl_ms(),
            final(self)@ == touch(prune(old(self)@, now, old(self).ttl_ms()), token@, now),
            match session_of(prune(old(self)@, now, old(self).ttl_ms()), token@) {
                None => r is None,
                Some(s) => r matches Some(a) && authenticated_view(a) == (token@, seen_at(s, 0)),
            },
    {
        let t = to_chars(token);
        let ghost ttl = self.ttl;
        self.retain_where(0, &t, now);
        proof {
            lemma_filter_keeps_distinct(old(self)@, alive_at(now, ttl));
        }
        let ghost pruned = self@;
        let mut i = self.entries.len();
        proof {
            self.lemma_len();
        }
        assert(pruned.take(pruned.len() as int) =~= pruned);
        while i > 0
            invariant
                i <= self.entries@.len(),
                self.entries@.len() == pruned.len(),
                pruned == self@,
                pruned == prune(old(self)@, now, ttl),
                t@ == token@,
                tokens_distinct(pruned),
                self.ttl == ttl,
                ttl == old(self).ttl,
                session_of(pruned, t@) == session_of(pruned.take(i as int), t@),
                forall|k: int| i <= k < pruned.len() ==> pruned[k].0 != t@,
            decreases i,
        {
            let k = i - 1;
            proof { self.lemma_view_index(k as int); }
            if crate::text::chars_eq_str(&t, self.entries[k].0.as_str()) {
                assert(pruned.take(i as int).last() == pruned[k as int]);
                assert(pruned.take(i as int).last().0 == t@);
                assert(session_of(pruned, t@) == Some(pruned[k as int].1));
                let e = &self.entries[k].1;
                let result = AuthenticatedSession {
                    token: token.to_string(),
                    csrf_token: e.csrf_token.clone(),
                    admin_id: e.admin_id.clone(),
                    admin_label: e.admin_label.clone(),
                    access_profile: e.access_profile.clone(),
                    must_change_password: e.must_change_password,
                };
                self.entries[k].1.last_seen = now;
                proof {
                    assert forall|j: int| 0 <= j < pruned.len() && j != k implies pruned[j].0 != t@ by {
                        assert(pruned[j].0 != pruned[k as int].0);
                    }
                    assert(self@ =~= touch(pruned, t@, now));
                    assert forall|a: int, b: int| 0 <= a < self@.len() && 0 <= b < self@.len() && a != b implies #[trigger] self@[a].0 != #[trigger] self@[b].0 by {
                        assert(self@[a].0 == pruned[a].0);
                        assert(self@[b].0 == pruned[b].0);
                    }
                }
                assert(t@ == token@);
                assert(self@ == touch(prune(old(self)@, now, old(self).ttl_ms()), token@, now));
                assert(authenticated_view(result).0 == token@);
                assert(authenticated_view(result).1 == seen_at(pruned[k as int].1, 0));
                return Some(result);
            }
            assert(pruned.take(i - 1) =~= pruned.take(i as int).drop_last());
            i = k;
        }
        proof {
            assert(pruned.take(0) =~= Seq::<(Seq<char>, SessionView)>::empty());
            assert(self@ =~= touch(pruned, t@, now));
        }
        None
    }

    /// Authenticates the token at `now` and checks that `csrf_token` is the
    /// CSRF token of its session.
    pub fn validate_csrf(&mut self, token: &str, csrf_token: &str, now: u64) -> (r: bool)
        requires
            old(self).wf(),
        ensures
            final(self).wf(),
            final(self).ttl_ms() == old(self).ttl_ms(),
            final(self)@ == touch(prune(old(self)@, now, old(self).ttl_ms()), token@, now),
            r == (session_of(prune(old(self)@, now, old(self).ttl_ms()), token@) matches Some(s) && s.csrf_token == csrf_token@),
    {
        match self.authenticate(token, now) {
            Some(session) => crate::text::str_eq(session.csrf_token.as_str(), csrf_token),
            None => false,
        }
    }
}

proof fn lemma_filter_keeps_distinct(t: SessionTable, keep: spec_fn((Seq<char>, SessionView)) -> bool)
    requires
        tokens_distinct(t),
    ensures
        tokens_distinct(t.filter(keep)),
    decreases t.len(),
{
    reveal_with_fuel(Seq::<(Seq<char>, SessionView)>::filter, 1);
    if t.len() > 0 {
        let init = t.drop_last();
        assert(tokens_distinct(init)) by {
            assert forall|i: int, j: int| 0 <= i < init.len() && 0 <= j < init.len() && i != j implies #[trigger] init[i].0 != #[trigger] init[j].0 by {
                assert(init[i] == t[i]);
                assert(init[j] == t[j]);
            }
        }
        lemma_filter_keeps_distinct(init, keep);
        let f = init.filter(keep);
        if keep(t.last()) {
            assert forall|k: int| 0 <= k < f.len() implies f[k].0 != t.last().0 by {
                assert(init.filter(keep).contains(f[k]));
                init.lemma_filter_contains_rev(keep, f[k]);
                let m = choose|m: int| 0 <= m < init.len() && init[m] == f[k];
                assert(t[m] == init[m]);
                assert(t[t.len() - 1] == t.last());
            }
            let g = f.push(t.last());
            assert forall|i: int, j: int| 0 <= i < g.len() && 0 <= j < g.len() && i != j implies #[trigger] g[i].0 != #[trigger] g[j].0 by {
                if i < f.len() && j < f.len() {
                } else if i < f.len() {
                    assert(g[j] == t.last());
                } else {
                    assert(g[i] == t.last());
                }
            }
        }
    }
}

proof fn lemma_filter_drops(t: SessionTable, keep: spec_fn((Seq<char>, SessionView)) -> bool)
    ensures
        forall|k: int| 0 <= k < t.filter(keep).len() ==> keep(#[trigger] t.filter(keep)[k]),
{
    t.filter_lemma(keep);
}

proof fn lemma_session_of_filter(t: SessionTable, keep: spec_fn((Seq<char>, SessionView)) -> bool, token: Seq<char>)
    requires
        tokens_distinct(t),
    ensures
        session_of(t.filter(keep), token) == (match session_of(t, token) {
            Some(s) => if keep((token, s)) { Some(s) } else { None },
            None => None,
        }),
    decreases t.len(),
{
    reveal_with_fuel(Seq::<(Seq<char>, SessionView)>::filter, 1);
    if t.len() > 0 {
        let init = t.drop_last();
        assert(tokens_distinct(init)) by {
            assert forall|i: int, j: int| 0 <= i < init.len() && 0 <= j < init.len() && i != j implies #[trigger] init[i].0 != #[trigger] init[j].0 by {
                assert(init[i] == t[i]);
                assert(init[j] == t[j]);
            }
        }
        lemma_session_of_filter(init, keep, token);
        let f = init.filter(keep);
        let x = t.last();
        if keep(x) {
            assert(t.filter(keep) == f.push(x));
            assert(f.push(x).last() == x);
            assert(f.push(x).drop_last() =~= f);
        } else {
            assert(t.filter(keep) == f);
        }
        if x.0 == token {
            lemma_session_absent(init, token, t);
        }
    }
}

proof fn lemma_session_absent(init: SessionTable, token: Seq<char>, t: SessionTable)
    requires
        tokens_distinct(t),
        t.len() > 0,
        init == t.drop_last(),
        t.last().0 == token,
    ensures
        session_of(init, token) is None,
{
    assert forall|k: int| 0 <= k < init.len() implies init[k].0 != token by {
        assert(init[k] == t[k]);
        assert(t[k].0 != t[t.len() - 1].0);
    }
    lemma_session_none(init, token);
}

proof fn lemma_session_none(t: SessionTable, token: Seq<char>)
    requires
        forall|k: int| 0 <= k < t.len() ==> t[k].0 != token,
    ensures
        session_of(t, token) is None,
    decreases t.len(),
{
    if t.len() > 0 {
        assert(t.last() == t[t.len() - 1]);
        lemma_session_none(t.drop_last(), token);
    }
}

/// A session opened at time `now` is accepted with its own token as long as
/// it has not expired, whatever other sessions the store holds.
pub proof fn lemma_created_session_authenticates(t: SessionTable, token: Seq<char>, s: SessionView, later: u64, ttl: u64)
    requires
        tokens_distinct(t),
        alive(s.last_seen, later, ttl),
    ensures
        session_of(prune(without_token(t, token).push((token, s)), later, ttl), token) == Some(s),
{
    let base = without_token(t, token);
    let table = base.push((token, s));
    lemma_filter_keeps_distinct(t, token_differs(token));
    lemma_filter_drops(t, token_differs(token));
    assert(tokens_distinct(table)) by {
        assert forall|i: int, j: int| 0 <= i < table.len() && 0 <= j < table.len() && i != j implies #[trigger] table[i].0 != #[trigger] table[j].0 by {
            if i < base.len() && j < base.len() {
                assert(table[i] == base[i]);
                assert(table[j] == base[j]);
            } else if i < base.len() {
                assert(table[i] == base[i]);
                assert(token_differs(token)(base[i]));
            } else if j < base.len() {
                assert(table[j] == base[j]);
                assert(token_differs(token)(base[j]));
            }
        }
    }
    assert(table.last() == (token, s));
    assert(session_of(table, token) == Some(s));
    lemma_session_of_filter(table, alive_at(later, ttl), token);
}

/// A session not used within the time to live is refused.
pub proof fn lemma_expired_session_refused(t: SessionTable, token: Seq<char>, now: u64, ttl: u64)
    requires
        tokens_distinct(t),
        session_of(t, token) matches Some(s) && !alive(s.last_seen, now, ttl),
    ensures
        session_of(prune(t, now, ttl), token) is None,
{
    lemma_session_of_filter(t, alive_at(now, ttl), token);
}

/// Removing an administrator's sessions ends exactly their sessions: every
/// other token opens the same session as before.
pub proof fn lemma_remove_admin_only_theirs(t: SessionTable, admin_id: Seq<char>, token: Seq<char>)
    requires
        tokens_distinct(t),
    ensures
        session_of(without_admin(t, admin_id), token) == (match session_of(t, token) {
            Some(s) => if s.admin_id == admin_id { None } else { Some(s) },
            None => None,
        }),
{
    lemma_session_of_filter(t, admin_differs(admin_id), token);
}

/// After an administrator is removed, authenticating any token at any later
/// time (which first drops the expired sessions) refuses every session of
/// that administrator and gives every other token exactly what it would
/// have given before the removal.
pub proof fn lemma_removed_admin_refused_on_authenticate(
    t: SessionTable,
    admin_id: Seq<char>,
    token: Seq<char>,
    now: u64,
    ttl: u64,
)
    requires
        tokens_distinct(t),
    ensures
        session_of(prune(without_admin(t, admin_id), now, ttl), token) == (match session_of(prune(t, now, ttl), token) {
            Some(s) => if s.admin_id == admin_id { None } else { Some(s) },
            None => None,
        }),
{
    lemma_filter_keeps_distinct(t, admin_differs(admin_id));
    lemma_filter_keeps_distinct(t, alive_at(now, ttl));
    lemma_session_of_filter(without_admin(t, admin_id), alive_at(now, ttl), token);
    lemma_session_of_filter(t, admin_differs(admin_id), token);
    lemma_session_of_filter(t, alive_at(now, ttl), token);
}

/// A removed token no longer opens a session.
pub proof fn lemma_removed_token_refused(t: SessionTable, token: Seq<char>)
    requires
        tokens_distinct(t),
    ensures
        session_of(without_token(t, token), token) is None,
{
    lemma_session_of_filter(t, token_differs(token), token);
}

// ---------------------------------------------------------------------------
// Cookie
// ---------------------------------------------------------------------------

/// Name of the admin session cookie.
pub const ADMIN_COOKIE: &'static str = "hop_admin";

/// The `Set-Cookie` value that `cookie::Cookie::build` writes for
/// `name=value` with `Path=/`, `HttpOnly`, `SameSite=Strict`, `Secure` when
/// asked and `Max-Age=0` when the cookie is to be cleared.
pub open spec fn set_cookie_text(name: Seq<char>, value: Seq<char>, secure: bool, expire: bool) -> Seq<char> {
    name + "="@ + value + "; HttpOnly; SameSite=Strict"@ + (if secure { "; Secure"@ } else { Seq::empty() }) + "; Path=/"@
        + (if expire { "; Max-Age=0"@ } else { Seq::empty() })
}

/// Builds a cookie with `cookie::Cookie::build`, sets `path("/")`,
/// `http_only(true)`, `same_site(SameSite::Strict)`, `secure(true)` when
/// asked and `max_age(0 seconds)` when asked, and formats it with its
/// `Display` impl. The contract restates that impl's output (name=value,
/// then HttpOnly, SameSite, Secure, Path and Max-Age in that order).
#[verifier::external_body]
fn build_cookie(name: &str, value: &str, secure: bool, expire: bool) -> (r: String)
    ensures
        r@ == set_cookie_text(name@, value@, secure, expire),
{
    let mut cookie = cookie::Cookie::build((name.to_string(), value.to_string()))
        .path("/")
        .http_only(true)
        .same_site(cookie::SameSite::Strict);
    if secure {
        cookie = cookie.secure(true);
    }
    if expire {
        cookie = cookie.max_age(cookie::time::Duration::seconds(0));
    }
    cookie.build().to_string()
}

/// The `Set-Cookie` value that hands a session token to the browser.
pub fn session_cookie(token: &str, secure: bool) -> (r: String)
    ensures
        r@ == set_cookie_text(ADMIN_COOKIE@, token@, secure, false),
{
    build_cookie(ADMIN_COOKIE, token, secure, false)
}

/// The `Set-Cookie` value that clears the session cookie.
pub fn clear_cookie(secure: bool) -> (r: String)
    ensures
        r@ == set_cookie_text(ADMIN_COOKIE@, Seq::empty(), secure, true),
{
    proof {
        reveal_strlit("");
    }
    build_cookie(ADMIN_COOKIE, "", secure, true)
}

/// The position of the first occurrence of a character in a text that
/// holds it.
pub open spec fn first_index_of(s: Seq<char>, c: char) -> int {
    choose|i: int| 0 <= i < s.len() && s[i] == c && forall|j: int| 0 <= j < i ==> s[j] != c
}

proof fn lemma_first_occurrence_exists(s: Seq<char>, c: char)
    requires
        s.contains(c),
    ensures
        exists|i: int| 0 <= i < s.len() && s[i] == c && forall|j: int| 0 <= j < i ==> s[j] != c,
    decreases s.len(),
{
    if s[0] == c {
        assert(0 <= 0 < s.len() && s[0] == c && forall|j: int| 0 <= j < 0 ==> s[j] != c);
    } else {
        let t = s.drop_first();
        let k = choose|k: int| 0 <= k < s.len() && s[k] == c;
        assert(t[k - 1] == c);
        lemma_first_occurrence_exists(t, c);
        let i = choose|i: int| 0 <= i < t.len() && t[i] == c && forall|j: int| 0 <= j < i ==> t[j] != c;
        assert forall|j: int| 0 <= j < i + 1 implies s[j] != c by {
            if j > 0 {
                assert(s[j] == t[j - 1]);
            }
        }
        assert(s[i + 1] == c);
    }
}

/// In a text that holds a character, `first_index_of` is where it first
/// occurs: the character is there and nowhere before.
pub proof fn lemma_first_index_of(s: Seq<char>, c: char)
    requires
        s.contains(c),
    ensures
        0 <= first_index_of(s, c) < s.len(),
        s[first_index_of(s, c)] == c,
        forall|j: int| 0 <= j < first_index_of(s, c) ==> s[j] != c,
{
    lemma_first_occurrence_exists(s, c);
}

/// What `cookie::Cookie::parse` makes of a text without `;`: the trimmed
/// name before the first `=` and the trimmed value after it, or nothing when
/// there is no `=` or the name is empty.
pub open spec fn cookie_pair(s: Seq<char>) -> Option<(Seq<char>, Seq<char>)> {
    if s.contains('=') {
        let i = first_index_of(s, '=');
        let name = trim(s.subrange(0, i));
        if name.len() == 0 {
            None
        } else {
            Some((name, trim(s.subrange(i + 1, s.len() as int))))
        }
    } else {
        None
    }
}

/// `cookie::Cookie::parse` on one cookie pair (a text without `;`), giving
/// its name and value. The contract restates the crate's parser for such a
/// text: split at the first `=`, trim both sides, refuse an empty name.
#[verifier::external_body]
fn parse_cookie(s: &str) -> (r: Option<(String, String)>)
    requires
        !s@.contains(';'),
    ensures
        match cookie_pair(s@) {
            None => r is None,
            Some(p) => r matches Some(q) && q.0@ == p.0 && q.1@ == p.1,
        },
{
    match cookie::Cookie::parse(s) {
        Ok(cookie) => Some((cookie.name().to_string(), cookie.value().to_string())),
        Err(_) => None,
    }
}

/// The parts of a `Cookie` header value between `;` separators.
pub open spec fn semicolon_parts(s: Seq<char>) -> Seq<Seq<char>>
    decreases s.len(),
{
    if s.len() == 0 {
        seq![Seq::empty()]
    } else {
        let p = semicolon_parts(s.drop_last());
        if s.last() == ';' {
            p.push(Seq::empty())
        } else {
            p.update(p.len() - 1, p.last().push(s.last()))
        }
    }
}

/// The session token a `Cookie` header value carries, reading its parts in
/// order: the first unparsable part ends the search with nothing, the first
/// part named `hop_admin` gives its value.
pub open spec fn token_in_parts(parts: Seq<Seq<char>>) -> Option<Seq<char>>
    decreases parts.len(),
{
    if parts.len() == 0 {
        None
    } else {
        match cookie_pair(trim(parts[0])) {
            None => None,
            Some(p) => if p.0 == ADMIN_COOKIE@ {
                Some(p.1)
            } else {
                token_in_parts(parts.drop_first())
            },
        }
    }
}

proof fn lemma_parts_len(s: Seq<char>)
    ensures
        semicolon_parts(s).len() >= 1,
    decreases s.len(),
{
    if s.len() > 0 {
        lemma_parts_len(s.drop_last());
    }
}

proof fn lemma_parts_no_semicolon(s: Seq<char>)
    ensures
        forall|k: int| 0 <= k < semicolon_parts(s).len() ==> !(#[trigger] semicolon_parts(s)[k]).contains(';'),
    decreases s.len(),
{
    lemma_parts_len(s);
    if s.len() > 0 {
        lemma_parts_no_semicolon(s.drop_last());
        lemma_parts_len(s.drop_last());
        let p = semicolon_parts(s.drop_last());
        if s.last() != ';' {
            assert forall|k: int| 0 <= k < semicolon_parts(s).len() implies !(#[trigger] semicolon_parts(s)[k]).contains(';') by {
                if k == p.len() - 1 {
                    let q = p.last().push(s.last());
                    if q.contains(';') {
                        let m = choose|m: int| 0 <= m < q.len() && q[m] == ';';
                        if m < p.last().len() {
                            assert(p.last()[m] == ';');
                            assert(p[k].contains(';'));
                        }
                    }
                } else {
                    assert(semicolon_parts(s)[k] == p[k]);
                }
            }
        } else {
            assert forall|k: int| 0 <= k < semicolon_parts(s).len() implies !(#[trigger] semicolon_parts(s)[k]).contains(';') by {
                if k < p.len() {
                    assert(semicolon_parts(s)[k] == p[k]);
                }
            }
        }
    }
}

/// The admin session token carried by a `Cookie` request header, if any.
pub fn cookie_token(header: Option<&str>) -> (r: Option<String>)
    ensures
        match header {
            None => r is None,
            Some(h) => opt_string_view(r) == token_in_parts(semicolon_parts(h@)),
        },
{
    let raw = match header {
        Some(h) => h,
        None => return None,
    };
    let v = to_chars(raw);
    let mut parts: Vec<Vec<char>> = Vec::new();
    let mut piece: Vec<char> = Vec::new();
    let mut i: usize = 0;
    assert(v@.take(0) =~= Seq::<char>::empty());
    while i < v.len()
        invariant
            i <= v.len(),
            semicolon_parts(v@.take(i as int)).len() >= 1,
            piece@ == semicolon_parts(v@.take(i as int)).last(),
            parts@.map_values(|p: Vec<char>| p@) == semicolon_parts(v@.take(i as int)).drop_last(),
        decreases v.len() - i,
    {
        let ghost pre = v@.take(i as int);
        proof { lemma_parts_len(pre); }
        assert(v@.take(i + 1).drop_last() =~= pre);
        assert(v@.take(i + 1).last() == v@[i as int]);
        let c = v[i];
        if c == ';' {
            let mut done: Vec<char> = Vec::new();
            std::mem::swap(&mut done, &mut piece);
            let ghost before = parts@;
            parts.push(done);
            assert(parts@.map_values(|p: Vec<char>| p@) =~= before.map_values(|p: Vec<char>| p@).push(semicolon_parts(pre).last()));
            assert(semicolon_parts(pre) =~= semicolon_parts(pre).drop_last().push(semicolon_parts(pre).last()));
            assert(semicolon_parts(v@.take(i + 1)).drop_last() =~= semicolon_parts(pre));
        } else {
            piece.push(c);
            assert(semicolon_parts(v@.take(i + 1)).drop_last() =~= semicolon_parts(pre).drop_last());
        }
        i += 1;
    }
    assert(v@.take(v.len() as int) =~= v@);
    let ghost before = parts@;
    parts.push(piece);
    let ghost all = semicolon_parts(v@);
    proof {
        lemma_parts_len(v@);
        lemma_parts_no_semicolon(v@);
        assert(all =~= all.drop_last().push(all.last()));
    }
    assert(parts@.map_values(|p: Vec<char>| p@) =~= all);
    assert(all.skip(0) =~= all);
    assert(h_view(header) == raw@);
    let mut k: usize = 0;
    while k < parts.len()
        invariant
            k <= parts@.len(),
            parts@.map_values(|p: Vec<char>| p@) == all,
            all == semicolon_parts(h_view(header)),
            forall|m: int| 0 <= m < all.len() ==> !(#[trigger] all[m]).contains(';'),
            token_in_parts(all) == token_in_parts(all.skip(k as int)),
        decreases parts.len() - k,
    {
        assert(all[k as int] == parts@[k as int]@);
        let t = trim_chars(&parts[k]);
        let text = from_chars(&t);
        assert(!text@.contains(';')) by {
            crate::text::lemma_trim_shape(all[k as int]);
            if text@.contains(';') {
                let m = choose|m: int| 0 <= m < text@.len() && text@[m] == ';';
                let a = choose|a: int| 0 <= a && a + trim(all[k as int]).len() <= all[k as int].len() && #[trigger] all[k as int].subrange(a, a + trim(all[k as int]).len()) == trim(all[k as int]);
                assert(all[k as int][a + m] == ';');
            }
        }
        assert(all.skip(k as int)[0] == all[k as int]);
        assert(all.skip(k as int).drop_first() =~= all.skip(k + 1));
        match parse_cookie(text.as_str()) {
            None => {
                return None;
            },
            Some(pair) => {
                if crate::text::str_eq(pair.0.as_str(), ADMIN_COOKIE) {
                    return Some(pair.1);
                }
            },
        }
        k += 1;
    }
    assert(all.skip(k as int) =~= Seq::<Seq<char>>::empty());
    None
}

/// The text a `Cookie` header holds, if there is one.
pub open spec fn h_view(h: Option<&str>) -> Seq<char> {
    match h {
        Some(s) => s@,
        None => Seq::empty(),
    }
}

/// The character view of an optional string.
pub open spec fn opt_string_view(o: Option<String>) -> Option<Seq<char>> {
    match o {
        Some(s) => Some(s@),
        None => None,
    }
}

} // verus!
