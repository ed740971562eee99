//! The dispatch decisions around the single backend call: whether to make
//! it at all, which endpoint to route it to, and what to do with its
//! outcome. The call itself is network I/O and is performed by the thin
//! outer entry point; this module turns its inputs and its result into
//! plans and outcomes with exact contracts.

use vstd::prelude::*;

use crate::lang::Lang;
use crate::pair::parse;
use crate::pair::parse_of;
use crate::pair::MalformedSpec;
use crate::pair::Origin;
use crate::render::render;
use crate::render::render_of;
use crate::render::Translation;
use crate::report::lemma_report_contains_detail;
use crate::report::report_of;
use crate::report::report_prefix;
use crate::report::Report;

verus! {

/// One translation request, ready for the backend call.
#[derive(Clone, Debug)]
pub struct TranslationRequest {
    pub source: Origin,
    pub target: Lang,
    pub text: String,
    pub endpoint: Option<String>,
}

/// Where the backend call goes: the default service location, or a
/// caller-specified one.
#[derive(Clone, Debug)]
pub enum Route {
    DefaultEndpoint,
    Custom(String),
}

/// A failure of the backend call; `message` is the backend's own
/// diagnostic text, relayed unmodified.
#[derive(Clone, Debug)]
pub struct DispatchError {
    pub message: String,
}

/// What one invocation should do, decided before any backend call.
#[derive(Clone, Debug)]
pub enum Plan {
    /// Empty input text: exit silently with status zero, without parsing
    /// and without calling the backend.
    SilentExit,
    /// The specifier parsed: make exactly one backend call.
    Call(TranslationRequest),
    /// The specifier was rejected: report and fail.
    Reject(Report),
}

/// How one invocation ends after its plan ran.
#[derive(Clone, Debug)]
pub enum Outcome {
    /// The rendered translation, ready to print.
    Success(String),
    /// A diagnostic to report before a nonzero exit.
    Failure(Report),
}

/// The route an endpoint override selects: any caller-specified endpoint
/// routes to the custom path, absence of one to the default path.
pub open spec fn route_of(endpoint: Option<String>) -> Route {
    match endpoint {
        Some(u) => Route::Custom(u),
        None => Route::DefaultEndpoint,
    }
}

/// The headline a rejected specifier is reported under.
pub open spec fn malformed_headline(why: MalformedSpec) -> Seq<char> {
    match why {
        MalformedSpec::WrongLength => "Malformed language argument"@,
        MalformedSpec::MissingSeparator => "Malformed language argument: not separated by an ':'"@,
        MalformedSpec::UnknownCode => "Unknown languages"@,
    }
}

/// The enumerable hint shown with every rejected specifier.
pub open spec fn possible_langs_hint() -> Seq<char> {
    "Possible values: [\"en\", \"ar\", \"zh\", \"fr\", \"de\", \"it\", \"pt\", \"ru\", \"es\", \"ja\"]"@
}

/// Select the call path for an endpoint override.
pub fn choose_route(endpoint: &Option<String>) -> (r: Route)
    ensures
        r == route_of(*endpoint),
{
    match endpoint {
        Some(u) => Route::Custom(u.clone()),
        None => Route::DefaultEndpoint,
    }
}

/// The headline text for a rejected specifier.
pub fn malformed_headline_text(why: MalformedSpec) -> (r: &'static str)
    ensures
        r@ == malformed_headline(why),
{
    match why {
        MalformedSpec::WrongLength => "Malformed language argument",
        MalformedSpec::MissingSeparator => "Malformed language argument: not separated by an ':'",
        MalformedSpec::UnknownCode => "Unknown languages",
    }
}

/// The supported-codes hint text.
pub fn possible_langs_text() -> (r: &'static str)
    ensures
        r@ == possible_langs_hint(),
{
    "Possible values: [\"en\", \"ar\", \"zh\", \"fr\", \"de\", \"it\", \"pt\", \"ru\", \"es\", \"ja\"]"
}

/// Decide one invocation: empty text exits silently before the specifier
/// is even parsed; otherwise the specifier either parses into the one
/// backend call to make, or is rejected with its exact diagnostic.
pub fn plan_invocation(spec_arg: &str, text: &str, endpoint: Option<String>) -> (p: Plan)
    ensures
        text@.len() == 0 ==> p is SilentExit,
        text@.len() > 0 ==> match parse_of(spec_arg@) {
            Ok(pair) => p matches Plan::Call(req) && req.source == pair.source && req.target
                == pair.target && req.text@ == text@ && req.endpoint == endpoint,
            Err(why) => p matches Plan::Reject(rep) && rep.headline@ == malformed_headline(why)
                && rep.detail@ == possible_langs_hint() && rep.detail_is_hint,
        },
{
    if text.is_empty() {
        Plan::SilentExit
    } else {
        match parse(spec_arg) {
            Ok(pair) => Plan::Call(
                TranslationRequest {
                    source: pair.source,
                    target: pair.target,
                    text: String::from_str(text),
                    endpoint,
                },
            ),
            Err(why) => Plan::Reject(
                Report {
                    headline: String::from_str(malformed_headline_text(why)),
                    detail: String::from_str(possible_langs_text()),
                    detail_is_hint: true,
                },
            ),
        }
    }
}

/// Turn the backend call's result into the invocation's outcome: a
/// success renders, and a failure becomes a diagnostic that relays the
/// backend's message unmodified.
pub fn conclude(result: Result<Translation, DispatchError>, verbose: bool) -> (r: Outcome)
    ensures
        result matches Ok(t) ==> r matches Outcome::Success(s) && s@ == render_of(t, verbose),
        result matches Err(e) ==> r matches Outcome::Failure(rep) && rep.headline@
            == "Translation error:"@ && rep.detail@ == e.message@ && !rep.detail_is_hint,
{
    match result {
        Ok(t) => Outcome::Success(render(&t, verbose)),
        Err(e) => Outcome::Failure(
            Report {
                headline: String::from_str("Translation error:"),
                detail: e.message,
                detail_is_hint: false,
            },
        ),
    }
}

/// The process status an outcome exits with: zero exactly on success.
pub fn exit_code_for(r: &Outcome) -> (c: i32)
    ensures
        r is Success ==> c == 0i32,
        r is Failure ==> c == 1i32,
{
    match r {
        Outcome::Success(_) => 0,
        Outcome::Failure(_) => 1,
    }
}

/// Law: a caller-specified endpoint always routes to the custom call
/// path carrying that endpoint, never to the default path.
pub proof fn lemma_endpoint_routes_custom(endpoint: Option<String>)
    ensures
        endpoint matches Some(u) ==> route_of(endpoint) == Route::Custom(u),
        endpoint is None ==> route_of(endpoint) == Route::DefaultEndpoint,
        endpoint is Some ==> route_of(endpoint) != Route::DefaultEndpoint,
{
}

/// Law: the diagnostic a backend failure is reported under contains the
/// backend's message text unmodified, at whatever verbosity.
pub proof fn lemma_backend_failure_diagnostic(message: Seq<char>, verbose: bool)
    ensures
        ({
            let out = report_of("Translation error:"@, message, false, verbose);
            exists|i: int|
                0 <= i && i + message.len() <= out.len() && #[trigger] out.subrange(
                    i,
                    i + message.len(),
                ) == message
        }),
{
    let out = report_of("Translation error:"@, message, false, verbose);
    let i = report_prefix("Translation error:"@, false).len() as int;
    lemma_report_contains_detail("Translation error:"@, message, false, verbose);
    assert(0 <= i && i + message.len() <= out.len() && out.subrange(i, i + message.len())
        == message);
}

} // verus!
