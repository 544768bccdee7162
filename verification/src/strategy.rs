//! Authentication strategies and their composition.
//!
//! A strategy examines a request's credentials and produces a principal
//! (`Ok(Some(_))`), finds none and leaves the request anonymous
//! (`Ok(None)`), or actively rejects with a terminal response (`Err(_)`).
//! The combined strategy tries the session token first and HTTP Basic
//! second; the first success wins, a rejection is deferred rather than
//! returned at once, and only when no strategy succeeds is a rejection
//! surfaced, carrying every scheme's challenge. A request bearing both an
//! invalid session cookie and valid Basic credentials therefore succeeds.

use vstd::prelude::*;
use vstd::string::StringExecFns;
use crate::auth::{AuthenticatedUser, BasicAuthentication, PrincipalView};
use crate::basic::{basic_parse, parse_basic_header};
use crate::response::{challenge_views, Response, STATUS_BAD_REQUEST, STATUS_UNAUTHORIZED};
use crate::session::{live_lookup, SessionStore, SessionView};
use crate::strutil::append_strings;

verus! {

/// The credentials a request presents: the authorization header, if any,
/// and the session token (from a cookie or header named by configuration),
/// if any. Both arrive already extracted from the raw request.
pub struct AuthRequest {
    pub authorization: Option<String>,
    pub session_token: Option<String>,
}

/// The characters of an optional string.
pub open spec fn opt_chars(o: Option<String>) -> Option<Seq<char>> {
    match o {
        Some(s) => Some(s@),
        None => None,
    }
}

/// What matters of a strategy's outcome: the principal it produced, the
/// fact that it found no credentials, or the status and challenges of its
/// rejection.
pub enum OutcomeView {
    Granted(PrincipalView),
    Anonymous,
    Rejected(u16, Seq<Seq<char>>),
}

/// The view of an executable outcome.
pub open spec fn outcome_view(o: Result<Option<AuthenticatedUser>, Response>) -> OutcomeView {
    match o {
        Ok(Some(u)) => OutcomeView::Granted(u@),
        Ok(None) => OutcomeView::Anonymous,
        Err(r) => OutcomeView::Rejected(r.status, challenge_views(r.challenges@)),
    }
}

/// The views of a sequence of outcomes.
pub open spec fn outcome_views(s: Seq<Result<Option<AuthenticatedUser>, Response>>) -> Seq<
    OutcomeView,
> {
    s.map_values(|o| outcome_view(o))
}

/// What the session-token strategy concludes: the stored principal for a
/// live token; anonymous when no token was presented, or the token is
/// unknown or expired (never a rejection, so another scheme may still
/// succeed).
pub open spec fn session_outcome(
    m: Map<Seq<char>, SessionView>,
    ttl: u64,
    token: Option<Seq<char>>,
    now: u64,
) -> OutcomeView {
    match token {
        None => OutcomeView::Anonymous,
        Some(t) => match live_lookup(m, t, now, ttl) {
            Some(p) => OutcomeView::Granted(p),
            None => OutcomeView::Anonymous,
        },
    }
}

/// The challenge values the Basic scheme advertises.
pub open spec fn basic_challenge() -> Seq<Seq<char>> {
    seq!["Basic"@]
}

/// What the Basic strategy concludes: anonymous when no header was
/// presented; 400 for a malformed header (caller error, never escalated);
/// 401 for credentials the verifier refused; otherwise the verifier's
/// principal. Both rejections advertise the Basic challenge.
pub open spec fn basic_outcome<A: BasicAuthentication>(
    a: A,
    header: Option<Seq<char>>,
) -> OutcomeView {
    match header {
        None => OutcomeView::Anonymous,
        Some(h) => match basic_parse(h) {
            None => OutcomeView::Rejected(STATUS_BAD_REQUEST, basic_challenge()),
            Some(cred) => match a.verify_spec(cred.0, cred.1) {
                Some(p) => OutcomeView::Granted(p),
                None => OutcomeView::Rejected(STATUS_UNAUTHORIZED, basic_challenge()),
            },
        },
    }
}

/// The response with which the Basic strategy rejects.
fn basic_reject(status: u16, message: &str) -> (r: Response)
    ensures
        r.status == status,
        r.message@ == message@,
        challenge_views(r.challenges@) == basic_challenge(),
{
    let mut challenges: Vec<String> = Vec::new();
    challenges.push(String::from_str("Basic"));
    proof {
        assert(challenge_views(challenges@) =~= basic_challenge());
    }
    Response { status, challenges, message: String::from_str(message), required_privilege: None }
}

/// The session-token strategy: looks the presented token up in the store
/// at time `now`.
pub fn session_authenticate(store: &SessionStore, req: &AuthRequest, now: u64) -> (r: Result<
    Option<AuthenticatedUser>,
    Response,
>)
    requires
        store.wf(),
    ensures
        outcome_view(r) == session_outcome(store@, store.ttl(), opt_chars(req.session_token), now),
        r is Ok,
{
    match &req.session_token {
        None => Ok(None),
        Some(t) => Ok(store.lookup_at(t.as_str(), now)),
    }
}

/// The Basic strategy: parses the authorization header and delegates the
/// credentials to the verifier.
pub fn basic_authenticate<A: BasicAuthentication>(a: &A, req: &AuthRequest) -> (r: Result<
    Option<AuthenticatedUser>,
    Response,
>)
    ensures
        outcome_view(r) == basic_outcome(*a, opt_chars(req.authorization)),
{
    match &req.authorization {
        None => Ok(None),
        Some(h) => match parse_basic_header(h.as_str()) {
            None => Err(basic_reject(STATUS_BAD_REQUEST, "Malformed authorization header")),
            Some(c) => match a.authenticate(c.username, c.password) {
                Ok(user) => Ok(Some(user)),
                Err(_) => Err(basic_reject(STATUS_UNAUTHORIZED, "Unauthorized")),
            },
        },
    }
}

/// What a list of outcomes combines to: the first success wins; with no
/// success and no rejection the request stays anonymous; otherwise the
/// first rejection is surfaced with its own status, carrying every
/// rejection's challenges in order.
pub open spec fn combine_spec(s: Seq<OutcomeView>) -> OutcomeView
    decreases s.len(),
{
    if s.len() == 0 {
        OutcomeView::Anonymous
    } else {
        match s[0] {
            OutcomeView::Granted(p) => OutcomeView::Granted(p),
            OutcomeView::Anonymous => combine_spec(s.drop_first()),
            OutcomeView::Rejected(st, ch) => match combine_spec(s.drop_first()) {
                OutcomeView::Granted(p) => OutcomeView::Granted(p),
                OutcomeView::Anonymous => OutcomeView::Rejected(st, ch),
                OutcomeView::Rejected(_, ch2) => OutcomeView::Rejected(st, ch + ch2),
            },
        }
    }
}

/// How a combination continues once a prefix of the outcomes has been
/// folded into a first rejection's status (if one was seen) and accumulated
/// challenges: `rest` is the combination of the remaining outcomes.
pub open spec fn merge_tail(first: Option<u16>, ch: Seq<Seq<char>>, rest: OutcomeView) -> OutcomeView {
    match rest {
        OutcomeView::Granted(p) => OutcomeView::Granted(p),
        OutcomeView::Anonymous => match first {
            Some(st) => OutcomeView::Rejected(st, ch),
            None => OutcomeView::Anonymous,
        },
        OutcomeView::Rejected(st2, c2) => match first {
            Some(st) => OutcomeView::Rejected(st, ch + c2),
            None => OutcomeView::Rejected(st2, c2),
        },
    }
}

/// Whether a first rejection was seen, and with which status.
pub open spec fn pending_rejection(message: Option<String>, status: u16) -> Option<u16> {
    match message {
        Some(_) => Some(status),
        None => None,
    }
}

/// Combines the outcomes of the strategies, tried in order. A surfaced
/// rejection keeps the first rejecting strategy's status and message, with
/// every rejection's challenges merged in order.
#[verifier::loop_isolation(false)]
pub fn combine(outcomes: Vec<Result<Option<AuthenticatedUser>, Response>>) -> (r: Result<
    Option<AuthenticatedUser>,
    Response,
>)
    ensures
        outcome_view(r) == combine_spec(outcome_views(outcomes@)),
{
    let ghost views = outcome_views(outcomes@);
    let n = outcomes.len();
    let mut acc: Vec<String> = Vec::new();
    let mut first_status: u16 = 0;
    let mut first_message: Option<String> = None;
    let mut i: usize = 0;
    proof {
        assert(views.skip(0) =~= views);
    }
    while i < n
        invariant
            0 <= i <= n,
            combine_spec(views) == merge_tail(
                pending_rejection(first_message, first_status),
                challenge_views(acc@),
                combine_spec(views.skip(i as int)),
            ),
            first_message is None ==> acc@.len() == 0,
        decreases n - i,
    {
        proof {
            assert(views.skip(i as int)[0] == views[i as int]);
            assert(views.skip(i as int).drop_first() =~= views.skip(i as int + 1));
        }
        match &outcomes[i] {
            Ok(Some(u)) => {
                return Ok(Some(u.clone()));
            },
            Ok(None) => {},
            Err(resp) => {
                let ghost acc0 = acc@;
                let ghost first0 = pending_rejection(first_message, first_status);
                if first_message.is_none() {
                    first_status = resp.status;
                    first_message = Some(resp.message.clone());
                }
                append_strings(&mut acc, &resp.challenges);
                proof {
                    assert(challenge_views(acc@) =~= challenge_views(acc0) + challenge_views(
                        resp.challenges@,
                    ));
                    let ch_i = challenge_views(resp.challenges@);
                    match combine_spec(views.skip(i as int + 1)) {
                        OutcomeView::Granted(_) => {},
                        OutcomeView::Anonymous => {
                            if first0 is None {
                                assert(challenge_views(acc0) + ch_i =~= ch_i);
                            }
                        },
                        OutcomeView::Rejected(_, c2) => {
                            assert((challenge_views(acc0) + ch_i) + c2 =~= challenge_views(acc0) + (
                            ch_i + c2));
                            if first0 is None {
                                assert(challenge_views(acc0) + ch_i =~= ch_i);
                            }
                        },
                    }
                }
            },
        }
        i = i + 1;
    }
    proof {
        assert(views.skip(n as int).len() == 0);
    }
    match first_message {
        Some(message) => Err(
            Response { status: first_status, challenges: acc, message, required_privilege: None },
        ),
        None => Ok(None),
    }
}

/// The combined authentication proxy: the session store and the credential
/// verifier, tried in that order on each request.
pub struct CombinedAuthenticationProxy<A: BasicAuthentication> {
    pub store: SessionStore,
    pub authenticator: A,
}

impl<A: BasicAuthentication> CombinedAuthenticationProxy<A> {
    pub fn new(store: SessionStore, authenticator: A) -> (p: CombinedAuthenticationProxy<A>)
        ensures
            p.store == store,
            p.authenticator == authenticator,
    {
        CombinedAuthenticationProxy { store, authenticator }
    }

    /// Authenticates a request at time `now`: the session token is tried
    /// first, Basic credentials second, and the outcomes combine as
    /// `combine_spec` says.
    pub fn authenticate(&self, req: &AuthRequest, now: u64) -> (r: Result<
        Option<AuthenticatedUser>,
        Response,
    >)
        requires
            self.store.wf(),
        ensures
            outcome_view(r) == combine_spec(
                seq![
                    session_outcome(
                        self.store@,
                        self.store.ttl(),
                        opt_chars(req.session_token),
                        now,
                    ),
                    basic_outcome(self.authenticator, opt_chars(req.authorization)),
                ],
            ),
    {
        let o1 = session_authenticate(&self.store, req, now);
        let o2 = basic_authenticate(&self.authenticator, req);
        let mut outcomes: Vec<Result<Option<AuthenticatedUser>, Response>> = Vec::new();
        let ghost v1 = outcome_view(o1);
        let ghost v2 = outcome_view(o2);
        outcomes.push(o1);
        outcomes.push(o2);
        proof {
            assert(outcome_views(outcomes@) =~= seq![v1, v2]);
        }
        combine(outcomes)
    }
}

/// Given one failing and one succeeding sub-strategy, in either order, the
/// combination succeeds with the succeeding strategy's principal.
pub proof fn lemma_combined_prefers_success(p: PrincipalView, st: u16, ch: Seq<Seq<char>>)
    ensures
        combine_spec(seq![OutcomeView::Rejected(st, ch), OutcomeView::Granted(p)])
            == OutcomeView::Granted(p),
        combine_spec(seq![OutcomeView::Granted(p), OutcomeView::Rejected(st, ch)])
            == OutcomeView::Granted(p),
{
    reveal_with_fuel(combine_spec, 4);
    assert(seq![OutcomeView::Rejected(st, ch), OutcomeView::Granted(p)].drop_first()
        =~= seq![OutcomeView::Granted(p)]);
}

/// When every sub-strategy finds no credentials, the combination leaves the
/// request anonymous.
pub proof fn lemma_combined_all_anonymous(s: Seq<OutcomeView>)
    requires
        forall|i: int| 0 <= i < s.len() ==> s[i] is Anonymous,
    ensures
        combine_spec(s) is Anonymous,
    decreases s.len(),
{
    if s.len() > 0 {
        assert(forall|i: int| 0 <= i < s.drop_first().len() ==> s.drop_first()[i] == s[i + 1]);
        lemma_combined_all_anonymous(s.drop_first());
    }
}

/// Every challenge of a sequence of rejections, in order.
pub open spec fn all_challenges(s: Seq<OutcomeView>) -> Seq<Seq<char>>
    decreases s.len(),
{
    if s.len() == 0 {
        Seq::empty()
    } else {
        match s[0] {
            OutcomeView::Rejected(_, ch) => ch + all_challenges(s.drop_first()),
            _ => all_challenges(s.drop_first()),
        }
    }
}

/// When every sub-strategy rejects, the combination rejects with the first
/// rejection's status, and its challenges are every scheme's challenges in
/// order.
pub proof fn lemma_combined_all_rejected(s: Seq<OutcomeView>)
    requires
        s.len() > 0,
        forall|i: int| 0 <= i < s.len() ==> s[i] is Rejected,
    ensures
        combine_spec(s) == OutcomeView::Rejected(s[0]->Rejected_0, all_challenges(s)),
    decreases s.len(),
{
    let ch = s[0]->Rejected_1;
    if s.len() == 1 {
        assert(s.drop_first().len() == 0);
        assert(ch + all_challenges(s.drop_first()) =~= ch);
    } else {
        assert(forall|i: int| 0 <= i < s.drop_first().len() ==> s.drop_first()[i] == s[i + 1]);
        lemma_combined_all_rejected(s.drop_first());
    }
}

} // verus!
