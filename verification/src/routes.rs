//! Route resolution and authorization exemptions.
//!
//! A route maps a path prefix to a backend service; the first configured
//! route whose prefix starts the request path wins. An exemption lifts the
//! authorization requirement for one exact `(endpoint, method)` pair.

use vstd::prelude::*;
use crate::text::{str_eq, str_starts_with};

verus! {

/// One configured backend route: requests whose path starts with `path` are
/// forwarded to `target_service:target_port`.
#[derive(Debug)]
pub struct ServiceConfig {
    pub path: String,
    pub target_service: String,
    pub target_port: String,
}

/// One authorization exemption: requests whose path and method both equal
/// these fields exactly skip the authorization round trip.
#[derive(Debug)]
pub struct NoAuthEndpoints {
    pub endpoint: String,
    pub method: String,
}

impl ServiceConfig {
    /// An owned copy with equal fields.
    pub fn duplicate(&self) -> (r: ServiceConfig)
        ensures
            r == *self,
    {
        ServiceConfig {
            path: self.path.clone(),
            target_service: self.target_service.clone(),
            target_port: self.target_port.clone(),
        }
    }
}

/// The first route of `services`, in order, whose `path` is a literal prefix
/// of `path`, if any.
pub open spec fn resolve_route(path: Seq<char>, services: Seq<ServiceConfig>) -> Option<
    ServiceConfig,
>
    decreases services.len(),
{
    if services.len() == 0 {
        None
    } else if services[0].path@.is_prefix_of(path) {
        Some(services[0])
    } else {
        resolve_route(path, services.drop_first())
    }
}

/// Route resolution returns the first match in configured order and nothing
/// on a miss: whenever position `i` matches and no earlier position does, the
/// result is the route at `i`; and when no position matches, the result is
/// `None`.
pub proof fn lemma_resolve_route_first_match(path: Seq<char>, services: Seq<ServiceConfig>)
    ensures
        forall|i: int|
            0 <= i < services.len() && (#[trigger] services[i]).path@.is_prefix_of(path) && (forall|
                j: int,
            | 0 <= j < i ==> !(#[trigger] services[j]).path@.is_prefix_of(path))
                ==> resolve_route(path, services) == Some(services[i]),
        (forall|i: int|
            0 <= i < services.len() ==> !(#[trigger] services[i]).path@.is_prefix_of(path))
            ==> resolve_route(path, services) is None,
    decreases services.len(),
{
    if services.len() > 0 {
        lemma_resolve_route_first_match(path, services.drop_first());
        assert forall|i: int|
            0 <= i < services.len() && (#[trigger] services[i]).path@.is_prefix_of(path) && (forall|
                j: int,
            | 0 <= j < i ==> !(#[trigger] services[j]).path@.is_prefix_of(path)) implies resolve_route(
            path,
            services,
        ) == Some(services[i]) by {
            if i == 0 {
            } else {
                assert(!services[0].path@.is_prefix_of(path));
                let rest = services.drop_first();
                assert(rest[i - 1] == services[i]);
                assert(forall|j: int|
                    0 <= j < i - 1 ==> !(#[trigger] rest[j]).path@.is_prefix_of(path)) by {
                    assert(forall|j: int| 0 <= j < i - 1 ==> rest[j] == services[j + 1]);
                }
            }
        }
        if forall|i: int|
            0 <= i < services.len() ==> !(#[trigger] services[i]).path@.is_prefix_of(path) {
            let rest = services.drop_first();
            assert(forall|j: int| 0 <= j < rest.len() ==> rest[j] == services[j + 1]);
        }
    }
}

/// Returns a reference to the first configured route whose `path` field is a
/// literal prefix of the request path, or `None` when no route matches.
pub fn get_service_config<'a>(path: &str, services: &'a Vec<ServiceConfig>) -> (r: Option<
    &'a ServiceConfig,
>)
    ensures
        match r {
            Some(c) => resolve_route(path@, services@) == Some(*c),
            None => resolve_route(path@, services@) is None,
        },
{
    let mut i: usize = 0;
    proof {
        assert(services@.skip(0) =~= services@);
    }
    while i < services.len()
        invariant
            i <= services@.len(),
            resolve_route(path@, services@) == resolve_route(path@, services@.skip(i as int)),
        decreases services@.len() - i,
    {
        let c = &services[i];
        proof {
            assert(services@.skip(i as int)[0] == services@[i as int]);
        }
        if str_starts_with(path, c.path.as_str()) {
            return Some(c);
        }
        proof {
            assert(services@.skip(i as int).drop_first() =~= services@.skip(i as int + 1));
        }
        i += 1;
    }
    proof {
        assert(services@.skip(i as int) =~= Seq::<ServiceConfig>::empty());
    }
    None
}

/// Does an exemption with exactly this endpoint and exactly this method
/// exist? Prefix or partial agreement never counts.
pub open spec fn is_exempt(
    path: Seq<char>,
    method: Seq<char>,
    exemptions: Seq<NoAuthEndpoints>,
) -> bool {
    exists|i: int|
        #![trigger exemptions[i]]
        0 <= i < exemptions.len() && exemptions[i].endpoint@ == path && exemptions[i].method@
            == method
}

/// A request needs the authorization round trip unless an exemption matches
/// its path and method exactly.
pub fn needs_auth(path: &str, method: &str, no_auth_endpoints: &Vec<NoAuthEndpoints>) -> (r: bool)
    ensures
        r == !is_exempt(path@, method@, no_auth_endpoints@),
{
    let mut i: usize = 0;
    while i < no_auth_endpoints.len()
        invariant
            i <= no_auth_endpoints@.len(),
            forall|j: int|
                #![trigger no_auth_endpoints@[j]]
                0 <= j < i ==> !(no_auth_endpoints@[j].endpoint@ == path@
                    && no_auth_endpoints@[j].method@ == method@),
        decreases no_auth_endpoints@.len() - i,
    {
        let e = &no_auth_endpoints[i];
        if str_eq(e.endpoint.as_str(), path) && str_eq(e.method.as_str(), method) {
            return false;
        }
        i += 1;
    }
    true
}

} // verus!
