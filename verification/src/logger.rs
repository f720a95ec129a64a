//! The logging collaborator's verified side: which sink a level targets, and
//! the content of the one log entry each terminal state emits.
//!
//! Writing the lines out (file append, message-bus publish) happens outside
//! this crate; these functions fix what is written and where.

use vstd::prelude::*;
use crate::config::LoggerConfig;
use crate::kv::Entry;
use crate::text::str_concat;

verus! {

/// The three log levels.
#[derive(PartialEq, Eq, Structural, Clone, Copy)]
pub enum LogLevel {
    Info,
    Warn,
    Error,
}

/// One log emission: a level, a message, and ordered key-value fields.
pub struct LogEntry {
    pub level: LogLevel,
    pub message: String,
    pub fields: Vec<Entry>,
}

/// The logging collaborator's settings: sink files and the optional
/// message-bus target.
pub struct Logger {
    pub use_kafka: bool,
    pub kafka_host: Option<String>,
    pub kafka_topic: String,
    pub out_file: String,
    pub err_file: String,
}

impl Logger {
    /// Builds the logger from its configuration: the message-bus fields are
    /// kept only when the bus is enabled, and a missing topic becomes empty.
    pub fn from_config(config: &LoggerConfig) -> (l: Logger)
        ensures
            l.use_kafka == config.use_kafka,
            l.out_file == config.out_file,
            l.err_file == config.err_file,
            config.use_kafka ==> l.kafka_host == config.kafka_host && l.kafka_topic@ == (match config.kafka_topic {
                Some(t) => t@,
                None => Seq::<char>::empty(),
            }),
            !config.use_kafka ==> l.kafka_host is None && l.kafka_topic@ == Seq::<char>::empty(),
    {
        if !config.use_kafka {
            Logger {
                use_kafka: false,
                kafka_host: None,
                kafka_topic: String::new(),
                out_file: config.out_file.clone(),
                err_file: config.err_file.clone(),
            }
        } else {
            Logger {
                use_kafka: true,
                kafka_host: match &config.kafka_host {
                    Some(h) => Some(h.clone()),
                    None => None,
                },
                kafka_topic: match &config.kafka_topic {
                    Some(t) => t.clone(),
                    None => String::new(),
                },
                out_file: config.out_file.clone(),
                err_file: config.err_file.clone(),
            }
        }
    }

    /// The file a line of this level is appended to: error lines go to the
    /// error file, info and warn lines to the out file.
    pub fn target_file(&self, level: LogLevel) -> (r: &String)
        ensures
            *r == (if level is Error {
                self.err_file
            } else {
                self.out_file
            }),
    {
        match level {
            LogLevel::Error => &self.err_file,
            _ => &self.out_file,
        }
    }
}

/// The five request fields every warning and error line carries.
fn request_fields(request_id: &str, ip: &str, method: &str, path: &str, query: &str) -> (r: Vec<
    Entry,
>)
    ensures
        r@.len() == 5,
        r@[0].key@ == "request_id"@ && r@[0].value@ == request_id@,
        r@[1].key@ == "ip"@ && r@[1].value@ == ip@,
        r@[2].key@ == "method"@ && r@[2].value@ == method@,
        r@[3].key@ == "url"@ && r@[3].value@ == path@,
        r@[4].key@ == "params"@ && r@[4].value@ == query@,
{
    let mut fields: Vec<Entry> = Vec::new();
    fields.push(Entry { key: "request_id".to_owned(), value: request_id.to_owned() });
    fields.push(Entry { key: "ip".to_owned(), value: ip.to_owned() });
    fields.push(Entry { key: "method".to_owned(), value: method.to_owned() });
    fields.push(Entry { key: "url".to_owned(), value: path.to_owned() });
    fields.push(Entry { key: "params".to_owned(), value: query.to_owned() });
    fields
}

/// The one info entry emitted when a connection is accepted.
pub fn connection_log(request_id: &str, ip: &str) -> (r: LogEntry)
    ensures
        r.level is Info,
        r.message@ == "New connection"@,
        r.fields@.len() == 2,
        r.fields@[0].key@ == "request_id"@ && r.fields@[0].value@ == request_id@,
        r.fields@[1].key@ == "ip"@ && r.fields@[1].value@ == ip@,
{
    let mut fields: Vec<Entry> = Vec::new();
    fields.push(Entry { key: "request_id".to_owned(), value: request_id.to_owned() });
    fields.push(Entry { key: "ip".to_owned(), value: ip.to_owned() });
    LogEntry { level: LogLevel::Info, message: "New connection".to_owned(), fields }
}

/// The one warn entry emitted when no route matches: its message carries the
/// request path, its fields the request's identity.
pub fn not_found_log(request_id: &str, ip: &str, method: &str, path: &str, query: &str) -> (r:
    LogEntry)
    ensures
        r.level is Warn,
        r.message@ == "Path not found: "@ + path@,
        r.fields@.len() == 5,
        r.fields@[0].key@ == "request_id"@ && r.fields@[0].value@ == request_id@,
        r.fields@[1].key@ == "ip"@ && r.fields@[1].value@ == ip@,
        r.fields@[2].key@ == "method"@ && r.fields@[2].value@ == method@,
        r.fields@[3].key@ == "url"@ && r.fields@[3].value@ == path@,
        r.fields@[4].key@ == "params"@ && r.fields@[4].value@ == query@,
{
    LogEntry {
        level: LogLevel::Warn,
        message: str_concat("Path not found: ", path),
        fields: request_fields(request_id, ip, method, path, query),
    }
}

/// The one info entry emitted when a response is returned: on an
/// authorization denial the relayed status, on a forwarded request the
/// backend's status.
pub fn connection_closed_log(request_id: &str, ip: &str, status: &str) -> (r: LogEntry)
    ensures
        r.level is Info,
        r.message@ == "Connection closed"@,
        r.fields@.len() == 3,
        r.fields@[0].key@ == "request_id"@ && r.fields@[0].value@ == request_id@,
        r.fields@[1].key@ == "ip"@ && r.fields@[1].value@ == ip@,
        r.fields@[2].key@ == "status"@ && r.fields@[2].value@ == status@,
{
    let mut fields: Vec<Entry> = Vec::new();
    fields.push(Entry { key: "request_id".to_owned(), value: request_id.to_owned() });
    fields.push(Entry { key: "ip".to_owned(), value: ip.to_owned() });
    fields.push(Entry { key: "status".to_owned(), value: status.to_owned() });
    LogEntry { level: LogLevel::Info, message: "Connection closed".to_owned(), fields }
}

/// The one error entry emitted when the authorization service cannot be
/// reached: its message names the authorization URL.
pub fn auth_unreachable_log(
    auth_api_url: &str,
    request_id: &str,
    ip: &str,
    method: &str,
    path: &str,
    query: &str,
) -> (r: LogEntry)
    ensures
        r.level is Error,
        r.message@ == "Failed to connect to Authorization API: "@ + auth_api_url@,
        r.fields@.len() == 5,
        r.fields@[0].key@ == "request_id"@ && r.fields@[0].value@ == request_id@,
        r.fields@[1].key@ == "ip"@ && r.fields@[1].value@ == ip@,
        r.fields@[2].key@ == "method"@ && r.fields@[2].value@ == method@,
        r.fields@[3].key@ == "url"@ && r.fields@[3].value@ == path@,
        r.fields@[4].key@ == "params"@ && r.fields@[4].value@ == query@,
{
    LogEntry {
        level: LogLevel::Error,
        message: str_concat("Failed to connect to Authorization API: ", auth_api_url),
        fields: request_fields(request_id, ip, method, path, query),
    }
}

/// The one error entry emitted when the resolved backend cannot be reached:
/// its message names the backend service.
pub fn backend_unreachable_log(
    target_service: &str,
    request_id: &str,
    ip: &str,
    method: &str,
    path: &str,
    query: &str,
) -> (r: LogEntry)
    ensures
        r.level is Error,
        r.message@ == "Failed to connect to downstream service "@ + target_service@,
        r.fields@.len() == 5,
        r.fields@[0].key@ == "request_id"@ && r.fields@[0].value@ == request_id@,
        r.fields@[1].key@ == "ip"@ && r.fields@[1].value@ == ip@,
        r.fields@[2].key@ == "method"@ && r.fields@[2].value@ == method@,
        r.fields@[3].key@ == "url"@ && r.fields@[3].value@ == path@,
        r.fields@[4].key@ == "params"@ && r.fields@[4].value@ == query@,
{
    LogEntry {
        level: LogLevel::Error,
        message: str_concat("Failed to connect to downstream service ", target_service),
        fields: request_fields(request_id, ip, method, path, query),
    }
}

} // verus!
