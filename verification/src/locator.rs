//! Resource locators: pipeline stages that turn path segments into typed
//! values before handlers run.
//!
//! Each locator names a path parameter, parses its raw value into the
//! expected shape, runs a resolver that may consult values bound by
//! enclosing locators, and binds the result into the request context.
//! Locators run in mount order, outermost path segment first, each seeing
//! only the bindings of locators strictly enclosing it. A missing
//! parameter or an unparsable value fails closed with 400 — caller error,
//! never a 500 — and a resolver failure returns the resolver's own
//! response; in every failing case the rest of the pipeline never runs.

use vstd::prelude::*;
use vstd::string::{StrSliceExecFns, StringExecFns};
use crate::response::{Response, STATUS_BAD_REQUEST, STATUS_INTERNAL_ERROR};
use crate::strutil::str_eq;

verus! {

/// The shape a locator expects of its raw path parameter.
#[derive(Clone, Copy, Debug, PartialEq, Eq, Structural)]
pub enum ParamKind {
    Numeric,
    Text,
}

/// A typed value a locator resolved: a numeric identifier or a textual one.
pub enum ResolvedValue {
    Number(u32),
    Text(String),
}

/// The mathematical value of a resolved value.
pub enum ValueView {
    Number(u32),
    Text(Seq<char>),
}

/// A value bound into the request context under a parameter name.
pub struct Binding {
    pub parameter: String,
    pub value: ResolvedValue,
}

/// The mathematical value of a binding.
pub struct BindingView {
    pub parameter: Seq<char>,
    pub value: ValueView,
}

/// The resolvers a locator can run. `Identity` accepts the parsed value;
/// `RequireOuter` accepts it only when an enclosing locator has bound the
/// named parameter, failing with 500 otherwise (an out-of-order pipeline is
/// a server fault, not a caller error); `Reject` stands for a domain
/// resolver that turns the value down with its own response, typically 404.
pub enum Resolver {
    Identity,
    RequireOuter { parameter: String },
    Reject { status: u16 },
}

/// The mathematical value of a resolver.
pub enum ResolverView {
    Identity,
    RequireOuter(Seq<char>),
    Reject(u16),
}

/// One pipeline stage: the path parameter it extracts, the shape it parses
/// the raw value into, and the resolver it runs.
pub struct ResourceLocator {
    pub parameter: String,
    pub kind: ParamKind,
    pub resolver: Resolver,
}

/// The mathematical value of a locator.
pub struct LocatorView {
    pub parameter: Seq<char>,
    pub kind: ParamKind,
    pub resolver: ResolverView,
}

impl View for ResolvedValue {
    type V = ValueView;

    open spec fn view(&self) -> ValueView {
        match self {
            ResolvedValue::Number(n) => ValueView::Number(*n),
            ResolvedValue::Text(s) => ValueView::Text(s@),
        }
    }
}

impl View for Binding {
    type V = BindingView;

    open spec fn view(&self) -> BindingView {
        BindingView { parameter: self.parameter@, value: self.value@ }
    }
}

impl View for Resolver {
    type V = ResolverView;

    open spec fn view(&self) -> ResolverView {
        match self {
            Resolver::Identity => ResolverView::Identity,
            Resolver::RequireOuter { parameter } => ResolverView::RequireOuter(parameter@),
            Resolver::Reject { status } => ResolverView::Reject(*status),
        }
    }
}

impl View for ResourceLocator {
    type V = LocatorView;

    open spec fn view(&self) -> LocatorView {
        LocatorView { parameter: self.parameter@, kind: self.kind, resolver: self.resolver@ }
    }
}

/// The views of the path parameters.
pub open spec fn params_view(s: Seq<(String, String)>) -> Seq<(Seq<char>, Seq<char>)> {
    s.map_values(|p: (String, String)| (p.0@, p.1@))
}

/// The views of the context bindings.
pub open spec fn bindings_view(s: Seq<Binding>) -> Seq<BindingView> {
    s.map_values(|b: Binding| b@)
}

/// The views of the locators.
pub open spec fn locators_view(s: Seq<ResourceLocator>) -> Seq<LocatorView> {
    s.map_values(|l: ResourceLocator| l@)
}

/// The raw value of the first parameter named `name`, if any.
pub open spec fn find_param(params: Seq<(Seq<char>, Seq<char>)>, name: Seq<char>) -> Option<
    Seq<char>,
>
    decreases params.len(),
{
    if params.len() == 0 {
        None
    } else if params[0].0 == name {
        Some(params[0].1)
    } else {
        find_param(params.drop_first(), name)
    }
}

/// Whether a digit character.
pub open spec fn is_digit(c: char) -> bool {
    48 <= c as u32 <= 57
}

/// The value of a digit character; zero for anything else.
pub open spec fn digit_val(c: char) -> nat {
    if is_digit(c) {
        (c as u32 - 48) as nat
    } else {
        0
    }
}

/// The number the digit string stands for.
pub open spec fn digits_value(s: Seq<char>) -> nat
    decreases s.len(),
{
    if s.len() == 0 {
        0
    } else {
        digits_value(s.drop_last()) * 10 + digit_val(s.last())
    }
}

/// The number `s` parses to: `s` must be non-empty, all digits, and fit;
/// leading zeros are accepted.
pub open spec fn parse_u32(s: Seq<char>) -> Option<u32> {
    if s.len() > 0 && (forall|i: int| 0 <= i < s.len() ==> is_digit(s[i])) && digits_value(s)
        <= u32::MAX {
        Some(digits_value(s) as u32)
    } else {
        None
    }
}

/// A prefix of a digit string never stands for more than the whole.
proof fn lemma_digits_prefix(s: Seq<char>, i: int)
    requires
        0 <= i <= s.len(),
    ensures
        digits_value(s.take(i)) <= digits_value(s),
    decreases s.len() - i,
{
    if i < s.len() {
        assert(s.take(i + 1).drop_last() =~= s.take(i));
        assert(s.take(i + 1).last() == s[i]);
        assert(digits_value(s.take(i + 1)) == digits_value(s.take(i)) * 10 + digit_val(s[i]));
        lemma_digits_prefix(s, i + 1);
        assert(s.take(s.len() as int) =~= s);
    } else {
        assert(s.take(i) =~= s);
    }
}

/// Parses a decimal number; returns nothing exactly when the string is
/// empty, holds a non-digit, or overflows.
#[verifier::loop_isolation(false)]
pub fn parse_u32_str(s: &str) -> (r: Option<u32>)
    ensures
        r == parse_u32(s@),
{
    let n = s.unicode_len();
    if n == 0 {
        return None;
    }
    let mut acc: u64 = 0;
    let mut i: usize = 0;
    proof {
        assert(s@.take(0) =~= Seq::<char>::empty());
    }
    while i < n
        invariant
            0 <= i <= n,
            acc <= u32::MAX,
            acc as nat == digits_value(s@.take(i as int)),
            forall|j: int| 0 <= j < i ==> is_digit(s@[j]),
        decreases n - i,
    {
        let c = s.get_char(i);
        let v = c as u32;
        if v < 48 || v > 57 {
            return None;
        }
        let d = (v - 48) as u64;
        acc = acc * 10 + d;
        proof {
            assert(s@.take(i as int + 1).drop_last() =~= s@.take(i as int));
            assert(s@.take(i as int + 1).last() == s@[i as int]);
        }
        if acc > 0xFFFF_FFFF {
            proof {
                lemma_digits_prefix(s@, i as int + 1);
            }
            return None;
        }
        i = i + 1;
    }
    proof {
        assert(s@.take(n as int) =~= s@);
    }
    Some(acc as u32)
}

/// How the raw parameter parses under the locator's expected shape.
pub open spec fn parse_param(kind: ParamKind, raw: Seq<char>) -> Option<ValueView> {
    match kind {
        ParamKind::Numeric => match parse_u32(raw) {
            Some(n) => Some(ValueView::Number(n)),
            None => None,
        },
        ParamKind::Text => Some(ValueView::Text(raw)),
    }
}

/// Whether the context holds a binding for `name`.
pub open spec fn has_binding(ctx: Seq<BindingView>, name: Seq<char>) -> bool {
    exists|i: int| 0 <= i < ctx.len() && (#[trigger] ctx[i]).parameter == name
}

/// What the resolver makes of the parsed value, given the bindings of
/// enclosing locators.
pub open spec fn resolve_spec(r: ResolverView, ctx: Seq<BindingView>, v: ValueView) -> Result<
    ValueView,
    u16,
> {
    match r {
        ResolverView::Identity => Ok(v),
        ResolverView::RequireOuter(name) => if has_binding(ctx, name) {
            Ok(v)
        } else {
            Err(STATUS_INTERNAL_ERROR)
        },
        ResolverView::Reject(status) => Err(status),
    }
}

/// What one locator does to the request: the binding it adds, or the
/// status it fails with.
pub open spec fn step_spec(
    loc: LocatorView,
    params: Seq<(Seq<char>, Seq<char>)>,
    ctx: Seq<BindingView>,
) -> Result<BindingView, u16> {
    match find_param(params, loc.parameter) {
        None => Err(STATUS_BAD_REQUEST),
        Some(raw) => match parse_param(loc.kind, raw) {
            None => Err(STATUS_BAD_REQUEST),
            Some(v) => match resolve_spec(loc.resolver, ctx, v) {
                Ok(rv) => Ok(BindingView { parameter: loc.parameter, value: rv }),
                Err(st) => Err(st),
            },
        },
    }
}

/// What the whole pipeline does: locators run in mount order, each seeing
/// the context the enclosing ones built; the first failure wins and no
/// later locator runs.
pub open spec fn run_locators_spec(
    locs: Seq<LocatorView>,
    params: Seq<(Seq<char>, Seq<char>)>,
    ctx: Seq<BindingView>,
) -> Result<Seq<BindingView>, u16>
    decreases locs.len(),
{
    if locs.len() == 0 {
        Ok(ctx)
    } else {
        match step_spec(locs[0], params, ctx) {
            Err(st) => Err(st),
            Ok(b) => run_locators_spec(locs.drop_first(), params, ctx.push(b)),
        }
    }
}

/// The raw value of the first parameter named `name`, if any.
fn find_param_in(params: &Vec<(String, String)>, name: &str) -> (r: Option<String>)
    ensures
        match r {
            Some(raw) => find_param(params_view(params@), name@) == Some(raw@),
            None => find_param(params_view(params@), name@) is None,
        },
{
    let n = params.len();
    let mut i: usize = 0;
    proof {
        assert(params_view(params@).skip(0) =~= params_view(params@));
    }
    while i < n
        invariant
            0 <= i <= n,
            n == params@.len(),
            find_param(params_view(params@), name@) == find_param(
                params_view(params@).skip(i as int),
                name@,
            ),
        decreases n - i,
    {
        proof {
            assert(params_view(params@).skip(i as int)[0] == params_view(params@)[i as int]);
            assert(params_view(params@).skip(i as int).drop_first() =~= params_view(
                params@,
            ).skip(i as int + 1));
        }
        if str_eq(params[i].0.as_str(), name) {
            return Some(params[i].1.clone());
        }
        i = i + 1;
    }
    proof {
        assert(params_view(params@).skip(n as int).len() == 0);
    }
    None
}

/// Whether the context holds a binding for `name`.
fn context_has(ctx: &Vec<Binding>, name: &str) -> (r: bool)
    ensures
        r == has_binding(bindings_view(ctx@), name@),
{
    let n = ctx.len();
    let mut i: usize = 0;
    while i < n
        invariant
            0 <= i <= n,
            n == ctx@.len(),
            forall|j: int| 0 <= j < i ==> (#[trigger] bindings_view(ctx@)[j]).parameter != name@,
        decreases n - i,
    {
        if str_eq(ctx[i].parameter.as_str(), name) {
            proof {
                assert(bindings_view(ctx@)[i as int].parameter == name@);
            }
            return true;
        }
        i = i + 1;
    }
    false
}

/// Runs the locator pipeline over the request's path parameters, growing
/// the context from `ctx`; returns the final context, or the first
/// failure's response.
#[verifier::loop_isolation(false)]
pub fn run_locators(
    locators: &Vec<ResourceLocator>,
    params: &Vec<(String, String)>,
    ctx: Vec<Binding>,
) -> (r: Result<Vec<Binding>, Response>)
    ensures
        match r {
            Ok(out) => run_locators_spec(locators_view(locators@), params_view(params@), bindings_view(ctx@))
                == Ok::<Seq<BindingView>, u16>(bindings_view(out@)),
            Err(resp) => run_locators_spec(
                locators_view(locators@),
                params_view(params@),
                bindings_view(ctx@),
            ) == Err::<Seq<BindingView>, u16>(resp.status),
        },
{
    let ghost locs = locators_view(locators@);
    let ghost pv = params_view(params@);
    let mut out = ctx;
    let n = locators.len();
    let mut i: usize = 0;
    proof {
        assert(locs.skip(0) =~= locs);
    }
    while i < n
        invariant
            0 <= i <= n,
            run_locators_spec(locs, pv, bindings_view(ctx@)) == run_locators_spec(
                locs.skip(i as int),
                pv,
                bindings_view(out@),
            ),
        decreases n - i,
    {
        proof {
            assert(locs.skip(i as int)[0] == locs[i as int]);
            assert(locs.skip(i as int).drop_first() =~= locs.skip(i as int + 1));
        }
        let loc = &locators[i];
        let raw = match find_param_in(params, loc.parameter.as_str()) {
            Some(raw) => raw,
            None => {
                return Err(
                    Response::plain(
                        STATUS_BAD_REQUEST,
                        String::from_str("Missing path parameter"),
                    ),
                );
            },
        };
        let value = match loc.kind {
            ParamKind::Numeric => {
                match parse_u32_str(raw.as_str()) {
                    Some(number) => ResolvedValue::Number(number),
                    None => {
                        return Err(
                            Response::plain(
                                STATUS_BAD_REQUEST,
                                String::from_str("Unparsable path parameter"),
                            ),
                        );
                    },
                }
            },
            ParamKind::Text => ResolvedValue::Text(raw),
        };
        match &loc.resolver {
            Resolver::Identity => {},
            Resolver::RequireOuter { parameter } => {
                if !context_has(&out, parameter.as_str()) {
                    return Err(
                        Response::plain(
                            STATUS_INTERNAL_ERROR,
                            String::from_str("Missing enclosing binding"),
                        ),
                    );
                }
            },
            Resolver::Reject { status } => {
                return Err(
                    Response::plain(*status, String::from_str("Resolver rejected the value")),
                );
            },
        }
        let binding = Binding { parameter: loc.parameter.clone(), value };
        let ghost out0 = out@;
        out.push(binding);
        proof {
            assert(bindings_view(out@) =~= bindings_view(out0).push(
                step_spec(locs[i as int], pv, bindings_view(out0)).unwrap(),
            ));
        }
        i = i + 1;
    }
    proof {
        assert(locs.skip(n as int).len() == 0);
    }
    Ok(out)
}

/// When the first locator fails, the pipeline fails with that locator's
/// status, whatever the later locators are: no inner locator runs.
pub proof fn lemma_first_failure_short_circuits(
    locs: Seq<LocatorView>,
    params: Seq<(Seq<char>, Seq<char>)>,
    ctx: Seq<BindingView>,
    st: u16,
)
    requires
        locs.len() > 0,
        step_spec(locs[0], params, ctx) == Err::<BindingView, u16>(st),
    ensures
        run_locators_spec(locs, params, ctx) == Err::<Seq<BindingView>, u16>(st),
{
}

/// A locator whose parameter is missing from the request path always fails
/// the request with 400, and the rest of the pipeline never runs.
pub proof fn lemma_missing_parameter_fails_closed(
    locs: Seq<LocatorView>,
    params: Seq<(Seq<char>, Seq<char>)>,
    ctx: Seq<BindingView>,
)
    requires
        locs.len() > 0,
        find_param(params, locs[0].parameter) is None,
    ensures
        run_locators_spec(locs, params, ctx) == Err::<Seq<BindingView>, u16>(STATUS_BAD_REQUEST),
{
}

} // verus!
