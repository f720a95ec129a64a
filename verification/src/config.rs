//! The gateway's immutable configuration, loaded once at startup and shared
//! read-only by every connection handler.

use vstd::prelude::*;
use crate::routes::{NoAuthEndpoints, ServiceConfig};
use crate::text::str_concat;

verus! {

/// Where log lines go: the two target files, and the optional message-bus
/// sink.
pub struct LoggerConfig {
    pub use_kafka: bool,
    pub kafka_host: Option<String>,
    pub kafka_topic: Option<String>,
    pub out_file: String,
    pub err_file: String,
    pub debug_file: String,
}

/// The whole gateway configuration: listen authority, advertised scheme,
/// authorization service, routes, exemptions, and logging.
pub struct GatewayConfig {
    pub api_gateway_url: String,
    pub is_https: bool,
    pub authorization_api_url: String,
    pub services: Vec<ServiceConfig>,
    pub endpoints_without_auth: Vec<NoAuthEndpoints>,
    pub logger_config: LoggerConfig,
}

/// The externally advertised URL: the scheme picked by the HTTPS flag, in
/// front of the gateway's own authority. The flag affects only this URL,
/// never the transport itself.
pub fn advertised_url(is_https: bool, authority: &str) -> (r: String)
    ensures
        r@ == (if is_https {
            "https://"@
        } else {
            "http://"@
        }) + authority@,
{
    if is_https {
        str_concat("https://", authority)
    } else {
        str_concat("http://", authority)
    }
}

} // verus!
