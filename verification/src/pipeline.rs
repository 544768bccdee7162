//! The request pipeline: outer locators, authentication, authorization,
//! inner locators, handler.
//!
//! Stages run strictly in that order; each either passes control forward
//! with more context or produces a terminal response, after which no later
//! stage runs. The pipeline's central guarantee: a request is never handed
//! to the handler unless the route declares no authentication required, or
//! a principal was produced whose role satisfies the verb's requirement.

use vstd::prelude::*;
use vstd::string::StringExecFns;
use crate::auth::{AuthenticatedUser, BasicAuthentication, PrincipalView};
use crate::gate::{insufficient_privilege_message, AuthorizationGate};
use crate::locator::{
    bindings_view, locators_view, params_view, run_locators_spec, Binding, BindingView,
    ResourceLocator,
};
use crate::privilege::{required_role, PrivilegeTable, Verb};
use crate::response::{
    challenge_views, Response, STATUS_FORBIDDEN, STATUS_METHOD_NOT_ALLOWED, STATUS_UNAUTHORIZED,
};
use crate::role::grants;
use crate::session::view_opt;
use crate::strategy::{
    basic_outcome, combine_spec, opt_chars, session_outcome, AuthRequest,
    CombinedAuthenticationProxy, OutcomeView,
};

verus! {

/// One route's configuration: the verbs it answers, the minimum roles per
/// verb, the locators enclosing and inside the authenticated region, and
/// whether the route requires authentication at all.
pub struct RouteConfig {
    pub allowed: Vec<Verb>,
    pub privileges: PrivilegeTable,
    pub outer_locators: Vec<ResourceLocator>,
    pub inner_locators: Vec<ResourceLocator>,
    pub auth_required: bool,
}

/// A request, reduced to what the middleware reads: the verb, the named
/// path parameters, and the credentials presented.
pub struct Request {
    pub verb: Verb,
    pub params: Vec<(String, String)>,
    pub auth: AuthRequest,
}

/// What the pipeline decides: hand the request to the handler, with the
/// principal and the bound context, or answer with a terminal response.
pub enum Decision {
    Invoke { principal: Option<AuthenticatedUser>, context: Vec<Binding> },
    Respond(Response),
}

/// The mathematical value of a decision; a response reduces to its status.
pub enum DecisionView {
    Invoke(Option<PrincipalView>, Seq<BindingView>),
    Respond(u16),
}

/// The view of a decision.
pub open spec fn decision_view(d: Decision) -> DecisionView {
    match d {
        Decision::Invoke { principal, context } => DecisionView::Invoke(
            view_opt(principal),
            bindings_view(context@),
        ),
        Decision::Respond(r) => DecisionView::Respond(r.status),
    }
}

/// Whether the route answers the verb.
pub open spec fn verb_allowed(allowed: Seq<Verb>, v: Verb) -> bool {
    exists|i: int| 0 <= i < allowed.len() && allowed[i] == v
}

/// What the combined authentication concludes for this request at `now`.
pub open spec fn auth_outcome_of<A: BasicAuthentication>(
    proxy: CombinedAuthenticationProxy<A>,
    request: Request,
    now: u64,
) -> OutcomeView {
    combine_spec(
        seq![
            session_outcome(
                proxy.store@,
                proxy.store.ttl(),
                opt_chars(request.auth.session_token),
                now,
            ),
            basic_outcome(proxy.authenticator, opt_chars(request.auth.authorization)),
        ],
    )
}

/// What the pipeline decides, stage by stage: an unanswered verb is 405;
/// then the outer locators run; then, unless the route is open,
/// authentication and authorization (a strategy's rejection is answered
/// with that rejection's own status, an anonymous request on a protected
/// route with 401); then the inner locators; the first failure is the
/// response.
pub open spec fn pipeline_spec<A: BasicAuthentication>(
    config: RouteConfig,
    proxy: CombinedAuthenticationProxy<A>,
    gate: AuthorizationGate,
    request: Request,
    now: u64,
) -> DecisionView {
    let required = required_role(config.privileges.entries@, request.verb);
    let pv = params_view(request.params@);
    if !verb_allowed(config.allowed@, request.verb) {
        DecisionView::Respond(STATUS_METHOD_NOT_ALLOWED)
    } else {
        match run_locators_spec(locators_view(config.outer_locators@), pv, Seq::empty()) {
            Err(st) => DecisionView::Respond(st),
            Ok(outer_ctx) => if !config.auth_required {
                match run_locators_spec(locators_view(config.inner_locators@), pv, outer_ctx) {
                    Err(st) => DecisionView::Respond(st),
                    Ok(ctx) => DecisionView::Invoke(None, ctx),
                }
            } else {
                match auth_outcome_of(proxy, request, now) {
                    OutcomeView::Rejected(st, _) => DecisionView::Respond(st),
                    OutcomeView::Anonymous => DecisionView::Respond(STATUS_UNAUTHORIZED),
                    OutcomeView::Granted(p) => if !grants(
                        gate.role_map.entries@,
                        p.role,
                        required,
                    ) {
                        DecisionView::Respond(STATUS_FORBIDDEN)
                    } else {
                        match run_locators_spec(
                            locators_view(config.inner_locators@),
                            pv,
                            outer_ctx,
                        ) {
                            Err(st) => DecisionView::Respond(st),
                            Ok(ctx) => DecisionView::Invoke(Some(p), ctx),
                        }
                    },
                }
            },
        }
    }
}

/// Whether the route answers the verb.
fn verb_is_allowed(allowed: &Vec<Verb>, v: Verb) -> (r: bool)
    ensures
        r == verb_allowed(allowed@, v),
{
    let n = allowed.len();
    let mut i: usize = 0;
    while i < n
        invariant
            0 <= i <= n,
            n == allowed@.len(),
            forall|j: int| 0 <= j < i ==> allowed@[j] != v,
        decreases n - i,
    {
        if allowed[i] == v {
            return true;
        }
        i = i + 1;
    }
    false
}

/// Runs the pipeline for one request at time `now` and decides.
///
/// Besides following `pipeline_spec` stage by stage, the decision keeps the
/// failing stage's detail: a combined-authentication rejection carries the
/// merged challenges, an anonymous request on a protected route carries the
/// gate's challenges, and an insufficient role names the missing privilege.
pub fn handle_request<A: BasicAuthentication>(
    config: &RouteConfig,
    proxy: &CombinedAuthenticationProxy<A>,
    gate: &AuthorizationGate,
    request: &Request,
    now: u64,
) -> (d: Decision)
    requires
        proxy.store.wf(),
    ensures
        decision_view(d) == pipeline_spec(*config, *proxy, *gate, *request, now),
        config.auth_required ==> (d matches Decision::Invoke { principal, .. } ==> (principal
            matches Some(u) && grants(
            gate.role_map.entries@,
            u@.role,
            required_role(config.privileges.entries@, request.verb),
        ))),
        ({
            let required = required_role(config.privileges.entries@, request.verb);
            let reaches_auth = verb_allowed(config.allowed@, request.verb) && run_locators_spec(
                locators_view(config.outer_locators@),
                params_view(request.params@),
                Seq::empty(),
            ) is Ok && config.auth_required;
            reaches_auth ==> match auth_outcome_of(*proxy, *request, now) {
                OutcomeView::Rejected(st, ch) => d matches Decision::Respond(r) && r.status == st
                    && challenge_views(r.challenges@) == ch,
                OutcomeView::Anonymous => d matches Decision::Respond(r) && r.challenges@
                    == gate.challenges@,
                OutcomeView::Granted(p) => !grants(gate.role_map.entries@, p.role, required) ==> (
                d matches Decision::Respond(r) && r.message@ == insufficient_privilege_message(
                    required,
                ) && r.required_privilege == Some(required)),
            }
        }),
{
    let required = config.privileges.required(request.verb);
    if !verb_is_allowed(&config.allowed, request.verb) {
        return Decision::Respond(
            Response::plain(STATUS_METHOD_NOT_ALLOWED, String::from_str("Method not allowed")),
        );
    }
    let empty_ctx: Vec<Binding> = Vec::new();
    proof {
        assert(bindings_view(empty_ctx@) =~= Seq::<BindingView>::empty());
    }
    let outer_ctx = match crate::locator::run_locators(
        &config.outer_locators,
        &request.params,
        empty_ctx,
    ) {
        Ok(ctx) => ctx,
        Err(resp) => {
            return Decision::Respond(resp);
        },
    };
    if !config.auth_required {
        return match crate::locator::run_locators(
            &config.inner_locators,
            &request.params,
            outer_ctx,
        ) {
            Ok(ctx) => Decision::Invoke { principal: None, context: ctx },
            Err(resp) => Decision::Respond(resp),
        };
    }
    let principal = match proxy.authenticate(&request.auth, now) {
        Ok(p) => p,
        Err(resp) => {
            return Decision::Respond(resp);
        },
    };
    let user = match gate.authorize(principal, required) {
        Ok(user) => user,
        Err(resp) => {
            return Decision::Respond(resp);
        },
    };
    match crate::locator::run_locators(&config.inner_locators, &request.params, outer_ctx) {
        Ok(ctx) => Decision::Invoke { principal: Some(user), context: ctx },
        Err(resp) => Decision::Respond(resp),
    }
}

} // verus!
