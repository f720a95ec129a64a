//! The gateway's own terminal responses and their CORS decoration.
//!
//! Responses the gateway relays from a backend keep their transport
//! representation outside this crate; the responses the gateway itself
//! produces (preflight, documentation routes, not-found, unavailable) are
//! built here, and every response the gateway returns is decorated with the
//! fixed CORS headers before it leaves.

use vstd::prelude::*;
use crate::kv::{Entry, insert_or_replace, inserted, lookup, unique_keys};

verus! {

/// A response the gateway produces itself: a status code, header entries in
/// order, and a text body.
pub struct GatewayResponse {
    pub status: u16,
    pub headers: Vec<Entry>,
    pub body: String,
}

/// The terminal response for a path no route matches.
pub fn not_found() -> (r: GatewayResponse)
    ensures
        r.status == 404,
        r.headers@.len() == 0,
        r.body@ == "Not Found"@,
{
    GatewayResponse { status: 404, headers: Vec::new(), body: "Not Found".to_owned() }
}

/// The terminal response for a transport failure towards the authorization
/// service or a backend.
pub fn service_unavailable(reason: &str) -> (r: GatewayResponse)
    ensures
        r.status == 503,
        r.headers@.len() == 0,
        r.body@ == reason@,
{
    GatewayResponse { status: 503, headers: Vec::new(), body: reason.to_owned() }
}

/// The terminal response for a preflight request: no content, no body; the
/// CORS headers are added by the decoration step.
pub fn preflight_response() -> (r: GatewayResponse)
    ensures
        r.status == 204,
        r.headers@.len() == 0,
        r.body@ == Seq::<char>::empty(),
{
    GatewayResponse { status: 204, headers: Vec::new(), body: String::new() }
}

/// The response of the fixed documentation-spec route: the merged document's
/// text when it could be read, and not-found otherwise.
pub fn openapi_spec_response(content: Option<String>) -> (r: GatewayResponse)
    ensures
        match content {
            Some(text) => r.status == 200 && r.headers@.len() == 1 && r.headers@[0].key@
                == "Content-Type"@ && r.headers@[0].value@ == "application/yaml"@ && r.body == text,
            None => r.status == 404 && r.headers@.len() == 0 && r.body@
                == "OpenAPI Specification Not Found"@,
        },
{
    match content {
        Some(text) => {
            let mut headers: Vec<Entry> = Vec::new();
            headers.push(
                Entry { key: "Content-Type".to_owned(), value: "application/yaml".to_owned() },
            );
            GatewayResponse { status: 200, headers, body: text }
        },
        None => GatewayResponse {
            status: 404,
            headers: Vec::new(),
            body: "OpenAPI Specification Not Found".to_owned(),
        },
    }
}

/// The response of the fixed documentation-UI route: the viewer page when it
/// could be read, and not-found otherwise.
pub fn swagger_ui_response(content: Option<String>) -> (r: GatewayResponse)
    ensures
        match content {
            Some(text) => r.status == 200 && r.headers@.len() == 1 && r.headers@[0].key@
                == "Content-Type"@ && r.headers@[0].value@ == "text/html"@ && r.body == text,
            None => r.status == 404 && r.headers@.len() == 0 && r.body@ == "Swagger UI Not Found"@,
        },
{
    match content {
        Some(text) => {
            let mut headers: Vec<Entry> = Vec::new();
            headers.push(Entry { key: "Content-Type".to_owned(), value: "text/html".to_owned() });
            GatewayResponse { status: 200, headers, body: text }
        },
        None => GatewayResponse {
            status: 404,
            headers: Vec::new(),
            body: "Swagger UI Not Found".to_owned(),
        },
    }
}

/// The decorated response keeps the status and body, carries the three fixed
/// CORS headers, and leaves every other header as it was.
pub open spec fn cors_decorated(pre: GatewayResponse, post: GatewayResponse) -> bool {
    &&& post.status == pre.status
    &&& post.body == pre.body
    &&& lookup(post.headers@, "Access-Control-Allow-Origin"@) == Some("*"@)
    &&& lookup(post.headers@, "Access-Control-Allow-Methods"@) == Some(
        "GET, POST, OPTIONS, PUT, DELETE"@,
    )
    &&& lookup(post.headers@, "Access-Control-Allow-Headers"@) == Some("Content-Type"@)
    &&& (forall|k: Seq<char>|
        #![trigger lookup(post.headers@, k)]
        k != "Access-Control-Allow-Origin"@ && k != "Access-Control-Allow-Methods"@ && k
            != "Access-Control-Allow-Headers"@ ==> lookup(post.headers@, k) == lookup(
            pre.headers@,
            k,
        ))
    &&& (unique_keys(pre.headers@) ==> unique_keys(post.headers@))
}

/// A response decorated with the gateway's CORS policy.
pub struct CorsResponse;

impl CorsResponse {
    /// Applies the three fixed CORS headers to a response, overwriting any
    /// headers of the same names and keeping everything else.
    pub fn from_parts(resp: GatewayResponse) -> (r: GatewayResponse)
        ensures
            cors_decorated(resp, r),
    {
        proof {
            reveal_strlit("Access-Control-Allow-Origin");
            reveal_strlit("Access-Control-Allow-Methods");
            reveal_strlit("Access-Control-Allow-Headers");
        }
        let GatewayResponse { status, mut headers, body } = resp;
        insert_or_replace(&mut headers, "Access-Control-Allow-Origin".to_owned(), "*".to_owned());
        insert_or_replace(
            &mut headers,
            "Access-Control-Allow-Methods".to_owned(),
            "GET, POST, OPTIONS, PUT, DELETE".to_owned(),
        );
        insert_or_replace(
            &mut headers,
            "Access-Control-Allow-Headers".to_owned(),
            "Content-Type".to_owned(),
        );
        proof {
            assert("Access-Control-Allow-Origin"@[21] == 'O'
                && "Access-Control-Allow-Methods"@[21] == 'M'
                && "Access-Control-Allow-Headers"@[21] == 'H');
        }
        GatewayResponse { status, headers, body }
    }
}

} // verus!
