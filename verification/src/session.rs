//! The session lifecycle manager.
//!
//! An in-memory registry of active sessions keyed by an opaque token.
//! Sessions are created on successful credential authentication, looked up
//! by later requests, and removed on explicit revocation or expiry. Expiry
//! is absolute: a session created at time `c` is live at time `t` exactly
//! when `t <= c + ttl`, checked lazily at lookup time; an explicit `sweep`
//! may additionally drop expired sessions, only to bound memory. The store
//! is a single piece of mutable state; callers that share
//! it across threads serialize access to it (for example behind a lock), so
//! that each operation below is atomic with respect to the others.

use vstd::prelude::*;
use vstd::string::StringExecFns;
use crate::auth::{AuthenticatedUser, BasicAuthentication, PrincipalView};
use crate::response::{Response, STATUS_UNAUTHORIZED};
use crate::strutil::str_eq;

verus! {

/// One active session: the opaque token, the principal it stands for, and
/// the creation time (seconds).
pub struct Session {
    pub token: String,
    pub principal: AuthenticatedUser,
    pub created_at: u64,
}

/// The mathematical value of a session, minus its token (the token is the
/// key under which the store holds it).
pub struct SessionView {
    pub principal: PrincipalView,
    pub created_at: u64,
}

impl View for Session {
    type V = SessionView;

    open spec fn view(&self) -> SessionView {
        SessionView { principal: self.principal@, created_at: self.created_at }
    }
}

impl Clone for Session {
    fn clone(&self) -> (r: Self)
        ensures
            r == *self,
    {
        Session {
            token: self.token.clone(),
            principal: self.principal.clone(),
            created_at: self.created_at,
        }
    }
}

/// The map a sequence of sessions represents: each token to its session,
/// later entries winning.
pub open spec fn sessions_map(s: Seq<Session>) -> Map<Seq<char>, SessionView>
    decreases s.len(),
{
    if s.len() == 0 {
        Map::empty()
    } else {
        sessions_map(s.drop_last()).insert(s.last().token@, s.last()@)
    }
}

/// No two sessions share a token.
pub open spec fn tokens_distinct(s: Seq<Session>) -> bool {
    forall|i: int, j: int|
        0 <= i < j < s.len() ==> (#[trigger] s[i]).token@ != (#[trigger] s[j]).token@
}

/// What a lookup of `token` at time `now` returns from the abstract store
/// `m` under the given TTL: the stored principal when the token is present
/// and not expired, and nothing otherwise.
pub open spec fn live_lookup(
    m: Map<Seq<char>, SessionView>,
    token: Seq<char>,
    now: u64,
    ttl: u64,
) -> Option<PrincipalView> {
    if m.dom().contains(token) && now <= m[token].created_at + ttl {
        Some(m[token].principal)
    } else {
        None
    }
}

/// The principal views of an optional principal.
pub open spec fn view_opt(r: Option<AuthenticatedUser>) -> Option<PrincipalView> {
    match r {
        Some(u) => Some(u@),
        None => None,
    }
}

/// The in-memory session store. Its abstract value is the map from live
/// and expired tokens to their sessions; expiry is applied at lookup.
pub struct SessionStore {
    sessions: Vec<Session>,
    ttl_seconds: u64,
}

impl View for SessionStore {
    type V = Map<Seq<char>, SessionView>;

    closed spec fn view(&self) -> Map<Seq<char>, SessionView> {
        sessions_map(self.sessions@)
    }
}

proof fn lemma_absent_token(s: Seq<Session>, t: Seq<char>)
    requires
        forall|i: int| 0 <= i < s.len() ==> (#[trigger] s[i]).token@ != t,
    ensures
        !sessions_map(s).dom().contains(t),
    decreases s.len(),
{
    if s.len() > 0 {
        assert(s.last() == s[s.len() - 1]);
        lemma_absent_token(s.drop_last(), t);
    }
}

proof fn lemma_found_token(s: Seq<Session>, i: int)
    requires
        tokens_distinct(s),
        0 <= i < s.len(),
    ensures
        sessions_map(s).dom().contains(s[i].token@),
        sessions_map(s)[s[i].token@] == s[i]@,
    decreases s.len(),
{
    if i == s.len() - 1 {
    } else {
        assert(s.drop_last()[i] == s[i]);
        lemma_found_token(s.drop_last(), i);
        assert(s[i].token@ != s[s.len() - 1].token@);
    }
}

proof fn lemma_no_token_when_absent(s: Seq<Session>, t: Seq<char>)
    requires
        tokens_distinct(s),
        !sessions_map(s).dom().contains(t),
    ensures
        forall|i: int| 0 <= i < s.len() ==> (#[trigger] s[i]).token@ != t,
{
    assert forall|i: int| 0 <= i < s.len() implies (#[trigger] s[i]).token@ != t by {
        if s[i].token@ == t {
            lemma_found_token(s, i);
        }
    }
}

proof fn lemma_remove_entry(s: Seq<Session>, i: int)
    requires
        tokens_distinct(s),
        0 <= i < s.len(),
    ensures
        sessions_map(s.remove(i)) =~= sessions_map(s).remove(s[i].token@),
        tokens_distinct(s.remove(i)),
    decreases s.len(),
{
    let t = s[i].token@;
    assert forall|j: int, k: int|
        0 <= j < k < s.remove(i).len() implies (#[trigger] s.remove(i)[j]).token@ != (#[trigger] s
        .remove(i)[k]).token@ by {
        assert(s.remove(i)[j] == if j < i {
            s[j]
        } else {
            s[j + 1]
        });
        assert(s.remove(i)[k] == if k < i {
            s[k]
        } else {
            s[k + 1]
        });
    }
    if i == s.len() - 1 {
        assert(s.remove(i) =~= s.drop_last());
        assert forall|j: int| 0 <= j < s.drop_last().len() implies (#[trigger] s.drop_last()[
            j
        ]).token@ != t by {
            assert(s.drop_last()[j] == s[j]);
        }
        lemma_absent_token(s.drop_last(), t);
    } else {
        let x = s.last();
        assert(s.remove(i).last() == x);
        assert(s.remove(i).drop_last() =~= s.drop_last().remove(i));
        assert(s.drop_last()[i] == s[i]);
        lemma_remove_entry(s.drop_last(), i);
        assert(x.token@ != t);
        assert(sessions_map(s.drop_last()).remove(t).insert(x.token@, x@) =~= sessions_map(
            s.drop_last(),
        ).insert(x.token@, x@).remove(t));
    }
}

impl SessionStore {
    /// The store is well formed: no two sessions share a token.
    pub closed spec fn wf(&self) -> bool {
        tokens_distinct(self.sessions@)
    }

    /// The configured time-to-live, in seconds.
    pub closed spec fn ttl(&self) -> u64 {
        self.ttl_seconds
    }

    /// An empty store with the given absolute TTL.
    pub fn new(ttl_seconds: u64) -> (s: SessionStore)
        ensures
            s.wf(),
            s@ == Map::<Seq<char>, SessionView>::empty(),
            s.ttl() == ttl_seconds,
    {
        SessionStore { sessions: Vec::new(), ttl_seconds }
    }

    /// The configured TTL, for callers.
    pub fn ttl_seconds(&self) -> (t: u64)
        ensures
            t == self.ttl(),
    {
        self.ttl_seconds
    }

    /// The index of the session holding `token`, if any.
    fn position_of(&self, token: &str) -> (r: Option<usize>)
        ensures
            match r {
                Some(i) => i < self.sessions@.len() && self.sessions@[i as int].token@ == token@,
                None => forall|j: int|
                    0 <= j < self.sessions@.len() ==> (#[trigger] self.sessions@[j]).token@
                        != token@,
            },
    {
        let n = self.sessions.len();
        let mut i: usize = 0;
        while i < n
            invariant
                0 <= i <= n,
                n == self.sessions@.len(),
                forall|j: int| 0 <= j < i ==> (#[trigger] self.sessions@[j]).token@ != token@,
            decreases n - i,
        {
            if str_eq(self.sessions[i].token.as_str(), token) {
                return Some(i);
            }
            i = i + 1;
        }
        None
    }

    /// Looks `token` up at time `now`: the stored principal when the token
    /// is present and its session has not expired, and nothing otherwise.
    pub fn lookup_at(&self, token: &str, now: u64) -> (r: Option<AuthenticatedUser>)
        requires
            self.wf(),
        ensures
            view_opt(r) == live_lookup(self@, token@, now, self.ttl()),
    {
        match self.position_of(token) {
            Some(i) => {
                proof {
                    lemma_found_token(self.sessions@, i as int);
                }
                let created = self.sessions[i].created_at;
                let live = if now >= created {
                    now - created <= self.ttl_seconds
                } else {
                    true
                };
                if live {
                    Some(self.sessions[i].principal.clone())
                } else {
                    None
                }
            },
            None => {
                proof {
                    lemma_absent_token(self.sessions@, token@);
                }
                None
            },
        }
    }

    /// Removes the session holding `token`; idempotent, and a no-op for an
    /// unknown token.
    pub fn revoke(&mut self, token: &str)
        requires
            old(self).wf(),
        ensures
            final(self).wf(),
            final(self)@ == old(self)@.remove(token@),
            final(self).ttl() == old(self).ttl(),
    {
        match self.position_of(token) {
            Some(i) => {
                proof {
                    lemma_remove_entry(self.sessions@, i as int);
                }
                self.sessions.remove(i);
            },
            None => {
                proof {
                    lemma_absent_token(self.sessions@, token@);
                    assert(sessions_map(self.sessions@).remove(token@) =~= sessions_map(
                        self.sessions@,
                    ));
                }
            },
        }
    }

    /// Creates a session for `principal` at time `now` under a fresh random
    /// token, and returns it. In the negligible event that the token
    /// collides with an existing one, the existing session is replaced.
    pub fn create_at(&mut self, principal: AuthenticatedUser, now: u64) -> (s: Session)
        requires
            old(self).wf(),
        ensures
            final(self).wf(),
            final(self)@ == old(self)@.insert(
                s.token@,
                SessionView { principal: principal@, created_at: now },
            ),
            s.principal@ == principal@,
            s.created_at == now,
            s.token@.len() == 32,
            final(self).ttl() == old(self).ttl(),
    {
        let token = generate_token();
        self.revoke(token.as_str());
        let ghost cleared = self.sessions@;
        proof {
            lemma_no_token_when_absent(cleared, token@);
        }
        let stored = Session {
            token: token.clone(),
            principal: principal.clone(),
            created_at: now,
        };
        self.sessions.push(stored);
        proof {
            assert(self.sessions@.drop_last() =~= cleared);
            assert(sessions_map(self.sessions@) =~= sessions_map(cleared).insert(
                token@,
                SessionView { principal: principal@, created_at: now },
            ));
            assert(sessions_map(cleared).insert(
                token@,
                SessionView { principal: principal@, created_at: now },
            ) =~= old(self)@.insert(
                token@,
                SessionView { principal: principal@, created_at: now },
            ));
        }
        Session { token, principal, created_at: now }
    }

    /// Creates a session for `principal` at the current clock time.
    pub fn create(&mut self, principal: AuthenticatedUser) -> (s: Session)
        requires
            old(self).wf(),
        ensures
            final(self).wf(),
            final(self)@ == old(self)@.insert(
                s.token@,
                SessionView { principal: principal@, created_at: s.created_at },
            ),
            s.principal@ == principal@,
            s.token@.len() == 32,
            final(self).ttl() == old(self).ttl(),
    {
        let now = now_seconds();
        self.create_at(principal, now)
    }

    /// Looks `token` up at the current clock time. Whatever the clock
    /// returned, a principal is produced only for a token the store holds.
    pub fn lookup(&self, token: &str) -> (r: Option<AuthenticatedUser>)
        requires
            self.wf(),
        ensures
            match r {
                Some(u) => self@.dom().contains(token@) && u@ == self@[token@].principal,
                None => true,
            },
    {
        let now = now_seconds();
        self.lookup_at(token, now)
    }
}

/// The abstract store with every expired session dropped: the sessions
/// live at `now` under `ttl`, and nothing else.
pub open spec fn live_sessions(
    m: Map<Seq<char>, SessionView>,
    now: u64,
    ttl: u64,
) -> Map<Seq<char>, SessionView> {
    Map::new(
        |t: Seq<char>| m.dom().contains(t) && now <= m[t].created_at + ttl,
        |t: Seq<char>| m[t],
    )
}

impl SessionStore {
    /// Drops every expired session, to bound memory; lookups at `now` are
    /// unaffected, since expiry is checked at lookup time anyway.
    pub fn sweep(&mut self, now: u64)
        requires
            old(self).wf(),
        ensures
            final(self).wf(),
            final(self)@ == live_sessions(old(self)@, now, old(self).ttl()),
            final(self).ttl() == old(self).ttl(),
    {
        let ghost s = self.sessions@;
        let ttl = self.ttl_seconds;
        let n = self.sessions.len();
        let mut kept: Vec<Session> = Vec::new();
        let mut i: usize = 0;
        proof {
            assert(s.take(0) =~= Seq::<Session>::empty());
            assert(sessions_map(kept@) =~= live_sessions(sessions_map(s.take(0)), now, ttl));
        }
        while i < n
            invariant
                0 <= i <= n,
                n == s.len(),
                ttl == self.ttl_seconds,
                self.sessions@ == s,
                tokens_distinct(s),
                tokens_distinct(kept@),
                sessions_map(kept@) == live_sessions(sessions_map(s.take(i as int)), now, ttl),
                forall|j: int|
                    0 <= j < kept@.len() ==> exists|k: int|
                        0 <= k < i && #[trigger] kept@[j] == s[k],
            decreases n - i,
        {
            let ghost kept0 = kept@;
            proof {
                assert(s.take(i as int + 1).drop_last() =~= s.take(i as int));
                assert(s.take(i as int + 1).last() == s[i as int]);
                assert forall|j: int| 0 <= j < s.take(i as int).len() implies (#[trigger] s.take(
                    i as int,
                )[j]).token@ != s[i as int].token@ by {
                    assert(s.take(i as int)[j] == s[j]);
                }
                lemma_absent_token(s.take(i as int), s[i as int].token@);
            }
            let session = &self.sessions[i];
            let live = if now >= session.created_at {
                now - session.created_at <= ttl
            } else {
                true
            };
            if live {
                kept.push(self.sessions[i].clone());
                proof {
                    assert(kept@.drop_last() =~= kept0);
                    assert(kept@.last() == s[i as int]);
                    assert forall|j: int, k: int| 0 <= j < k < kept@.len() implies (
                    #[trigger] kept@[j]).token@ != (#[trigger] kept@[k]).token@ by {
                        if k < kept@.len() - 1 {
                            assert(kept@[j] == kept0[j] && kept@[k] == kept0[k]);
                        } else {
                            assert(kept@[k] == s[i as int]);
                            let w = choose|w: int| 0 <= w < i && #[trigger] kept0[j] == s[w];
                            assert(s[w].token@ != s[i as int].token@);
                        }
                    }
                    assert(sessions_map(kept@) =~= live_sessions(
                        sessions_map(s.take(i as int + 1)),
                        now,
                        ttl,
                    ));
                }
            } else {
                proof {
                    assert(sessions_map(kept@) =~= live_sessions(
                        sessions_map(s.take(i as int + 1)),
                        now,
                        ttl,
                    ));
                }
            }
            i = i + 1;
        }
        proof {
            assert(s.take(n as int) =~= s);
        }
        self.sessions = kept;
    }
}

/// Dropping the expired sessions changes no lookup made at the same time:
/// with `sweep`'s and `lookup_at`'s contracts, a sweep at `now` is
/// invisible to every `lookup_at` at `now`.
pub proof fn lemma_sweep_preserves_lookup(
    m: Map<Seq<char>, SessionView>,
    token: Seq<char>,
    now: u64,
    ttl: u64,
)
    ensures
        live_lookup(live_sessions(m, now, ttl), token, now, ttl) == live_lookup(m, token, now, ttl),
{
}

/// The session-issuing operation: verifies the credentials and, on
/// success, creates a session for the verified principal at time `now`.
/// Refused credentials are a 401 and leave the store unchanged.
pub fn issue_session<A: BasicAuthentication>(
    store: &mut SessionStore,
    verifier: &A,
    username: String,
    password: String,
    now: u64,
) -> (r: Result<Session, Response>)
    requires
        old(store).wf(),
    ensures
        final(store).wf(),
        final(store).ttl() == old(store).ttl(),
        match verifier.verify_spec(username@, password@) {
            Some(p) => {
                &&& r matches Ok(s)
                &&& r->Ok_0.principal@ == p
                &&& r->Ok_0.created_at == now
                &&& final(store)@ == old(store)@.insert(
                    r->Ok_0.token@,
                    SessionView { principal: p, created_at: now },
                )
            },
            None => {
                &&& r matches Err(resp) && resp.status == STATUS_UNAUTHORIZED
                &&& final(store)@ == old(store)@
            },
        },
{
    match verifier.authenticate(username, password) {
        Ok(user) => Ok(store.create_at(user, now)),
        Err(_) => Err(
            Response::plain(STATUS_UNAUTHORIZED, String::from_str("Invalid credentials")),
        ),
    }
}

/// Relies on `std::time::SystemTime::now` and `duration_since`: the system
/// clock, as whole seconds since the Unix epoch. Nothing is promised of the
/// value; the clock is outside the program.
#[verifier::external_body]
fn now_seconds() -> u64 {
    match std::time::SystemTime::now().duration_since(std::time::UNIX_EPOCH) {
        Ok(d) => d.as_secs(),
        Err(_) => 0,
    }
}

/// Relies on `std::collections::hash_map::RandomState` and
/// `std::hash::BuildHasher::hash_one`: each state hashes with fresh
/// per-instance random seeds, so the result is unpredictable from outside
/// the process. Nothing is promised of the value.
#[verifier::external_body]
fn entropy_u64() -> u64 {
    let state = std::collections::hash_map::RandomState::new();
    std::hash::BuildHasher::hash_one(&state, 0u64)
}

/// A fresh random 128-bit token, as 32 hexadecimal characters.
fn generate_token() -> (t: String)
    ensures
        t@.len() == 32,
{
    let mut t = String::new();
    append_hex_u64(&mut t, entropy_u64());
    append_hex_u64(&mut t, entropy_u64());
    t
}

/// The character for one hexadecimal digit.
fn hex_digit(n: u8) -> char
    requires
        n < 16,
{
    match n {
        0 => '0',
        1 => '1',
        2 => '2',
        3 => '3',
        4 => '4',
        5 => '5',
        6 => '6',
        7 => '7',
        8 => '8',
        9 => '9',
        10 => 'a',
        11 => 'b',
        12 => 'c',
        13 => 'd',
        14 => 'e',
        _ => 'f',
    }
}

/// Appends the 16 hexadecimal digits of `x`, most significant first.
fn append_hex_u64(s: &mut String, x: u64)
    ensures
        final(s)@.len() == old(s)@.len() + 16,
{
    let mut i: usize = 0;
    while i < 16
        invariant
            0 <= i <= 16,
            s@.len() == old(s)@.len() + i,
        decreases 16 - i,
    {
        let shift: u64 = 60 - 4 * (i as u64);
        let masked: u64 = (x >> shift) & 0xf;
        assert(masked < 16) by (bit_vector)
            requires
                masked == (x >> shift) & 0xf,
        ;
        s.push(hex_digit(masked as u8));
        i = i + 1;
    }
}

/// Creating a session and looking its token up returns the principal the
/// session was created for, as long as the TTL has not elapsed; once it
/// has, the lookup returns nothing. With `create_at`'s and `lookup_at`'s
/// contracts this holds of the executable store.
pub proof fn lemma_create_then_lookup(
    m: Map<Seq<char>, SessionView>,
    token: Seq<char>,
    p: PrincipalView,
    created: u64,
    now: u64,
    ttl: u64,
)
    ensures
        now <= created + ttl ==> live_lookup(
            m.insert(token, SessionView { principal: p, created_at: created }),
            token,
            now,
            ttl,
        ) == Some(p),
        now > created + ttl ==> live_lookup(
            m.insert(token, SessionView { principal: p, created_at: created }),
            token,
            now,
            ttl,
        ) is None,
{
}

/// After a revocation, looking the token up returns nothing at any time,
/// and revoking again changes nothing: revocation is idempotent. With
/// `revoke`'s and `lookup_at`'s contracts this holds of the executable
/// store.
pub proof fn lemma_revoke_then_lookup(
    m: Map<Seq<char>, SessionView>,
    token: Seq<char>,
    now: u64,
    ttl: u64,
)
    ensures
        live_lookup(m.remove(token), token, now, ttl) is None,
        m.remove(token).remove(token) =~= m.remove(token),
{
}

} // verus!
