//! The per-request decision pipeline.
//!
//! One request walks the terminal states in a fixed order: preflight,
//! documentation routes, route resolution, authorization, forwarding. The
//! functions here take the request's plain values and decide each step; the
//! caller performs the network work between the steps and hands the outcome
//! back.

use vstd::prelude::*;
use crate::routes::{
    NoAuthEndpoints,
    ServiceConfig,
    get_service_config,
    is_exempt,
    needs_auth,
    resolve_route,
};
use crate::routes::lemma_resolve_route_first_match;
use crate::response::{GatewayResponse, cors_decorated};
use crate::kv::lookup;
use crate::text::{str_concat, str_eq};

verus! {

/// What the gateway does next with an inbound request.
pub enum RequestAction {
    /// Answer the CORS preflight directly.
    Preflight,
    /// Serve the merged description document.
    ServeSpec,
    /// Serve the documentation viewer page.
    ServeDocs,
    /// No configured route matches: answer not-found.
    NotFound,
    /// Ask the authorization service, then forward to this route.
    Authorize { route: ServiceConfig },
    /// Forward to this route without an authorization round trip.
    Forward { route: ServiceConfig },
}

/// The decision order of the request state machine: preflight first, then the
/// two fixed documentation routes, then route resolution, then the exemption
/// check.
pub open spec fn spec_plan(
    method: Seq<char>,
    path: Seq<char>,
    spec_route: Seq<char>,
    docs_route: Seq<char>,
    services: Seq<ServiceConfig>,
    exemptions: Seq<NoAuthEndpoints>,
) -> RequestAction {
    if method == "OPTIONS"@ {
        RequestAction::Preflight
    } else if path == spec_route {
        RequestAction::ServeSpec
    } else if path == docs_route {
        RequestAction::ServeDocs
    } else {
        match resolve_route(path, services) {
            None => RequestAction::NotFound,
            Some(route) => if is_exempt(path, method, exemptions) {
                RequestAction::Forward { route }
            } else {
                RequestAction::Authorize { route }
            },
        }
    }
}

/// Decides the next step for one request from its method and path, the two
/// configured documentation routes, and the gateway's route and exemption
/// tables.
pub fn plan_request(
    method: &str,
    path: &str,
    spec_route: &str,
    docs_route: &str,
    services: &Vec<ServiceConfig>,
    exemptions: &Vec<NoAuthEndpoints>,
) -> (r: RequestAction)
    ensures
        r == spec_plan(method@, path@, spec_route@, docs_route@, services@, exemptions@),
{
    if str_eq(method, "OPTIONS") {
        return RequestAction::Preflight;
    }
    if str_eq(path, spec_route) {
        return RequestAction::ServeSpec;
    }
    if str_eq(path, docs_route) {
        return RequestAction::ServeDocs;
    }
    match get_service_config(path, services) {
        None => RequestAction::NotFound,
        Some(c) => {
            if needs_auth(path, method, exemptions) {
                RequestAction::Authorize { route: c.duplicate() }
            } else {
                RequestAction::Forward { route: c.duplicate() }
            }
        },
    }
}

/// A preflight request terminates with no content, whatever its path and
/// however the gateway is configured: the plan is the preflight terminal, and
/// the decorated preflight response has status 204, an empty body, and the
/// three fixed CORS headers.
pub proof fn lemma_preflight(
    method: Seq<char>,
    path: Seq<char>,
    spec_route: Seq<char>,
    docs_route: Seq<char>,
    services: Seq<ServiceConfig>,
    exemptions: Seq<NoAuthEndpoints>,
    base: GatewayResponse,
    decorated: GatewayResponse,
)
    requires
        method == "OPTIONS"@,
        base.status == 204,
        base.body@ == Seq::<char>::empty(),
        cors_decorated(base, decorated),
    ensures
        spec_plan(method, path, spec_route, docs_route, services, exemptions)
            == RequestAction::Preflight,
        decorated.status == 204,
        decorated.body@ == Seq::<char>::empty(),
        lookup(decorated.headers@, "Access-Control-Allow-Origin"@) == Some("*"@),
        lookup(decorated.headers@, "Access-Control-Allow-Methods"@) == Some(
            "GET, POST, OPTIONS, PUT, DELETE"@,
        ),
        lookup(decorated.headers@, "Access-Control-Allow-Headers"@) == Some("Content-Type"@),
{
}

/// A request whose path no configured route prefixes, when it is no preflight
/// and names neither documentation route, plans to the not-found terminal:
/// its response is the fixed not-found answer and its one log emission is the
/// warn entry that carries the path.
pub proof fn lemma_unrouted_request(
    method: Seq<char>,
    path: Seq<char>,
    spec_route: Seq<char>,
    docs_route: Seq<char>,
    services: Seq<ServiceConfig>,
    exemptions: Seq<NoAuthEndpoints>,
)
    requires
        method != "OPTIONS"@,
        path != spec_route,
        path != docs_route,
        forall|i: int|
            0 <= i < services.len() ==> !(#[trigger] services[i]).path@.is_prefix_of(path),
    ensures
        spec_plan(method, path, spec_route, docs_route, services, exemptions)
            == RequestAction::NotFound,
{
    lemma_resolve_route_first_match(path, services);
}

/// What came back from the authorization round trip.
pub enum AuthOutcome {
    /// The authorization service could not be reached.
    Unreachable,
    /// The authorization service answered with this status code.
    Answered { status: u16 },
}

/// What the gateway does with the authorization outcome.
pub enum AuthDecision {
    /// A success status: the pipeline proceeds to the backend.
    Granted,
    /// A non-success status: the authorization response is relayed verbatim
    /// and the backend is never contacted.
    Relay,
    /// A transport failure: answer service-unavailable, without a retry.
    Unavailable,
}

/// Authorization is granted exactly by a success status; every non-success
/// answer is relayed; a transport failure makes the gateway unavailable.
pub open spec fn spec_auth_decision(outcome: AuthOutcome) -> AuthDecision {
    match outcome {
        AuthOutcome::Unreachable => AuthDecision::Unavailable,
        AuthOutcome::Answered { status } => if 200 <= status < 300 {
            AuthDecision::Granted
        } else {
            AuthDecision::Relay
        },
    }
}

/// Decides how the pipeline continues after the authorization round trip.
pub fn evaluate_auth(outcome: &AuthOutcome) -> (r: AuthDecision)
    ensures
        r == spec_auth_decision(*outcome),
{
    match outcome {
        AuthOutcome::Unreachable => AuthDecision::Unavailable,
        AuthOutcome::Answered { status } => {
            if 200 <= *status && *status < 300 {
                AuthDecision::Granted
            } else {
                AuthDecision::Relay
            }
        },
    }
}

/// The `Cookie` value the authorization request carries: the inbound one, or
/// empty when the inbound request sent none.
pub fn auth_cookie_value(cookie: Option<&String>) -> (r: String)
    ensures
        r@ == match cookie {
            Some(c) => c@,
            None => Seq::<char>::empty(),
        },
{
    match cookie {
        Some(c) => c.clone(),
        None => String::new(),
    }
}

/// Whether `s` is the text of an IPv4 address. The exact acceptance set is
/// the validator's; it depends on the characters alone.
pub uninterp spec fn is_ipv4_text(s: Seq<char>) -> bool;

/// Whether `s` is the text of an IPv6 address. The exact acceptance set is
/// the validator's; it depends on the characters alone.
pub uninterp spec fn is_ipv6_text(s: Seq<char>) -> bool;

/// Relies on iptools::ipv4::validate_ip: a pure syntax check of dotted-quad
/// IPv4 text, a function of the string alone, never panicking.
#[verifier::external_body]
fn ipv4_valid(ip: &str) -> (r: bool)
    ensures
        r == is_ipv4_text(ip@),
{
    iptools::ipv4::validate_ip(ip)
}

/// Relies on iptools::ipv6::validate_ip: a pure syntax check of hexadecimal
/// IPv6 text, a function of the string alone, never panicking.
#[verifier::external_body]
fn ipv6_valid(ip: &str) -> (r: bool)
    ensures
        r == is_ipv6_text(ip@),
{
    iptools::ipv6::validate_ip(ip)
}

/// The outbound `x-forwarded-for` value: the inbound header when it is valid
/// IPv4 or IPv6 text, and the peer address of the connection otherwise.
pub open spec fn spec_forwarded_for(header: Option<Seq<char>>, peer: Seq<char>) -> Seq<char> {
    match header {
        Some(v) => if is_ipv4_text(v) || is_ipv6_text(v) {
            v
        } else {
            peer
        },
        None => peer,
    }
}

/// The view of an optional owned string.
pub open spec fn opt_view(s: Option<&String>) -> Option<Seq<char>> {
    match s {
        Some(v) => Some(v@),
        None => None,
    }
}

/// Picks the outbound `x-forwarded-for` value from the inbound header and the
/// connection's peer address.
pub fn forwarded_for_value(header: Option<&String>, peer_ip: &str) -> (r: String)
    ensures
        r@ == spec_forwarded_for(opt_view(header), peer_ip@),
{
    match header {
        Some(v) => {
            if ipv4_valid(v.as_str()) || ipv6_valid(v.as_str()) {
                v.clone()
            } else {
                peer_ip.to_owned()
            }
        },
        None => peer_ip.to_owned(),
    }
}

/// The plain values of the rewritten outbound request: the target URI and the
/// two forwarding headers. Everything else passes through unchanged.
pub struct DownstreamRequest {
    pub uri: String,
    pub forwarded_for: String,
    pub request_id: String,
}

/// The rewritten target URI: authority from the resolved route, path and
/// query from the inbound request.
pub open spec fn spec_downstream_uri(route: ServiceConfig, path: Seq<char>, query: Seq<char>) -> Seq<
    char,
> {
    route.target_service@ + ":"@ + route.target_port@ + path + "?"@ + query
}

/// Builds the outbound request values from the inbound request and the
/// resolved route: the rewritten URI, the validated-or-overwritten
/// `x-forwarded-for`, and the connection's correlation identifier as
/// `x-request-id`.
pub fn build_downstream_request(
    path: &str,
    query: &str,
    forwarded_header: Option<&String>,
    peer_ip: &str,
    request_id: &str,
    service_config: &ServiceConfig,
) -> (r: DownstreamRequest)
    ensures
        r.uri@ == spec_downstream_uri(*service_config, path@, query@),
        r.forwarded_for@ == spec_forwarded_for(opt_view(forwarded_header), peer_ip@),
        r.request_id@ == request_id@,
{
    let uri = str_concat(service_config.target_service.as_str(), ":");
    let uri = str_concat(uri.as_str(), service_config.target_port.as_str());
    let uri = str_concat(uri.as_str(), path);
    let uri = str_concat(uri.as_str(), "?");
    let uri = str_concat(uri.as_str(), query);
    proof {
        assert(uri@ =~= spec_downstream_uri(*service_config, path@, query@));
    }
    DownstreamRequest {
        uri,
        forwarded_for: forwarded_for_value(forwarded_header, peer_ip),
        request_id: request_id.to_owned(),
    }
}

} // verus!
