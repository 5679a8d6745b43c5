//! The three requests that the watchdog sends to the panel.
//!
//! Nothing here talks to the network: each function says which request is
//! to be sent, and the caller sends it.

use crate::error::ConfigError;
use crate::headers::{header_entries, header_set, is_header_value, is_header_value_text, request_headers};
use reqwest::header::HeaderMap;
use vstd::prelude::*;
use vstd::string::StringExecFns;

verus! {

/// The text of the credential header for a token.
pub open spec fn bearer(key: Seq<char>) -> Seq<char> {
    "Bearer "@ + key
}

/// The address that lists every server, up to five hundred on one page.
pub open spec fn servers_uri(base: Seq<char>) -> Seq<char> {
    base + "/application/servers?per_page=500"@
}

/// The address that tells the power state of one server.
pub open spec fn server_state_uri(base: Seq<char>, identifier: Seq<char>) -> Seq<char> {
    base + "/client/servers/"@ + identifier + "/resources"@
}

/// The address that takes a console command for one server.
pub open spec fn command_uri(base: Seq<char>, identifier: Seq<char>) -> Seq<char> {
    base + "/client/servers/"@ + identifier + "/command"@
}

/// The JSON string literal for a text, as `serde_json` writes it.
pub uninterp spec fn json_string(text: Seq<char>) -> Seq<char>;

/// The JSON object with the one member `command`, whose value is the given
/// JSON literal.
pub open spec fn command_object(literal: Seq<char>) -> Seq<char> {
    "{\"command\":"@ + literal + "}"@
}

/// Calls `serde_json::to_string` on a string slice.
///
/// Believed of `serde_json`: the result is a function of the text alone, and
/// serialising a string into memory does not fail.
#[verifier::external_body]
fn json_string_literal(text: &str) -> (literal: String)
    ensures
        literal@ == json_string(text@),
{
    serde_json::to_string(text).expect("a string serialises")
}

/// How a request is sent.
#[derive(Clone, Copy, Debug, PartialEq, Eq, Structural)]
pub enum Method {
    Get,
    Post,
}

/// A request to the panel, ready to be sent.
#[derive(Debug)]
pub struct Request {
    pub method: Method,
    pub uri: String,
    pub headers: HeaderMap,
    /// The body, if the request has one.
    pub body: Option<String>,
}

/// What a [`Request`] says, as plain values.
pub struct RequestView {
    pub method: Method,
    pub uri: Seq<char>,
    pub headers: Map<Seq<char>, Seq<Seq<u8>>>,
    pub body: Option<Seq<char>>,
}

impl View for Request {
    type V = RequestView;

    open spec fn view(&self) -> RequestView {
        RequestView {
            method: self.method,
            uri: self.uri@,
            headers: header_entries(self.headers),
            body: match self.body {
                Some(text) => Some(text@),
                None => None,
            },
        }
    }
}

/// Where the panel is and which tokens it accepts, read once at startup.
pub struct Config {
    server_uri: String,
    server_key: String,
    client_key: String,
}

/// What a [`Config`] says, as plain values.
pub struct Settings {
    pub server_uri: Seq<char>,
    pub server_key: Seq<char>,
    pub client_key: Seq<char>,
}

/// What [`Config::new`] makes of the three settings, each absent or present.
pub open spec fn configure(
    server_uri: Option<Seq<char>>,
    server_key: Option<Seq<char>>,
    client_key: Option<Seq<char>>,
) -> Result<Settings, ConfigError> {
    if server_uri is None {
        Err(ConfigError::MissingServerUri)
    } else if server_key is None {
        Err(ConfigError::MissingServerKey)
    } else if client_key is None {
        Err(ConfigError::MissingClientKey)
    } else if !is_header_value(bearer(server_key->0)) {
        Err(ConfigError::UnusableServerKey)
    } else if !is_header_value(bearer(client_key->0)) {
        Err(ConfigError::UnusableClientKey)
    } else {
        Ok(Settings { server_uri: server_uri->0, server_key: server_key->0, client_key: client_key->0 })
    }
}

/// The view of a setting that may be absent.
pub open spec fn setting(value: Option<String>) -> Option<Seq<char>> {
    match value {
        Some(text) => Some(text@),
        None => None,
    }
}

/// The request that lists every server; it goes with the management token.
pub open spec fn list_request(settings: Settings) -> RequestView {
    RequestView {
        method: Method::Get,
        uri: servers_uri(settings.server_uri),
        headers: request_headers(bearer(settings.server_key)),
        body: None,
    }
}

/// The request for one server's power state; it goes with the client token.
pub open spec fn state_request(settings: Settings, identifier: Seq<char>) -> RequestView {
    RequestView {
        method: Method::Get,
        uri: server_state_uri(settings.server_uri, identifier),
        headers: request_headers(bearer(settings.client_key)),
        body: None,
    }
}

/// The request that sends a console command to one server; it goes with the
/// client token, and its body is the JSON object `body`.
pub open spec fn command_request(settings: Settings, identifier: Seq<char>, body: Seq<char>) -> RequestView {
    RequestView {
        method: Method::Post,
        uri: command_uri(settings.server_uri, identifier),
        headers: request_headers(bearer(settings.client_key)),
        body: Some(body),
    }
}

/// The console command whose round trip is timed.
pub const LIST_COMMAND: &'static str = "list";

/// Writes the credential header for a token.
pub fn bearer_text(key: &str) -> (text: String)
    ensures
        text@ == bearer(key@),
{
    String::from_str("Bearer ").concat(key)
}

/// Writes the body of a command request around the JSON literal of the
/// command.
pub fn command_body(literal: &str) -> (body: String)
    ensures
        body@ == command_object(literal@),
{
    String::from_str("{\"command\":").concat(literal).concat("}")
}

impl View for Config {
    type V = Settings;

    closed spec fn view(&self) -> Settings {
        Settings { server_uri: self.server_uri@, server_key: self.server_key@, client_key: self.client_key@ }
    }
}

impl Config {
    #[verifier::type_invariant]
    spec fn tokens_fit_headers(&self) -> bool {
        &&& is_header_value(bearer(self.server_key@))
        &&& is_header_value(bearer(self.client_key@))
    }

    /// Makes the configuration from the three settings, each absent or
    /// present. Fails on the first setting that is absent, in the order
    /// `SERVER_URI`, `SERVER_KEY`, `CLIENT_KEY`, then on the first token
    /// that cannot be sent in a header.
    pub fn new(server_uri: Option<String>, server_key: Option<String>, client_key: Option<String>) -> (made:
        Result<Config, ConfigError>)
        ensures
            made matches Ok(config) ==> configure(
                setting(server_uri),
                setting(server_key),
                setting(client_key),
            ) == Ok::<Settings, ConfigError>(config@),
            made matches Err(error) ==> configure(
                setting(server_uri),
                setting(server_key),
                setting(client_key),
            ) == Err::<Settings, ConfigError>(error),
    {
        let server_uri = match server_uri {
            Some(text) => text,
            None => { return Err(ConfigError::MissingServerUri); },
        };
        let server_key = match server_key {
            Some(text) => text,
            None => { return Err(ConfigError::MissingServerKey); },
        };
        let client_key = match client_key {
            Some(text) => text,
            None => { return Err(ConfigError::MissingClientKey); },
        };
        if !is_header_value_text(bearer_text(server_key.as_str()).as_str()) {
            return Err(ConfigError::UnusableServerKey);
        }
        if !is_header_value_text(bearer_text(client_key.as_str()).as_str()) {
            return Err(ConfigError::UnusableClientKey);
        }
        Ok(Config { server_uri, server_key, client_key })
    }

    /// The request that lists every server.
    fn list(&self) -> (request: Request)
        ensures
            request@ == list_request(self@),
    {
        proof {
            use_type_invariant(self);
        }
        Request {
            method: Method::Get,
            uri: String::from_str(self.server_uri.as_str()).concat("/application/servers?per_page=500"),
            headers: header_set(bearer_text(self.server_key.as_str()).as_str()),
            body: None,
        }
    }

    /// The request for the power state of the server `identifier`.
    fn state(&self, identifier: &str) -> (request: Request)
        ensures
            request@ == state_request(self@, identifier@),
    {
        proof {
            use_type_invariant(self);
        }
        Request {
            method: Method::Get,
            uri: String::from_str(self.server_uri.as_str()).concat("/client/servers/").concat(
                identifier,
            ).concat("/resources"),
            headers: header_set(bearer_text(self.client_key.as_str()).as_str()),
            body: None,
        }
    }

    /// The request that posts `body` as a command for the server `identifier`.
    fn command(&self, identifier: &str, body: String) -> (request: Request)
        ensures
            request@ == command_request(self@, identifier@, body@),
    {
        proof {
            use_type_invariant(self);
        }
        Request {
            method: Method::Post,
            uri: String::from_str(self.server_uri.as_str()).concat("/client/servers/").concat(
                identifier,
            ).concat("/command"),
            headers: header_set(bearer_text(self.client_key.as_str()).as_str()),
            body: Some(body),
        }
    }
}

/// The request that gets a list of all servers.
pub fn get_servers(config: &Config) -> (request: Request)
    ensures
        request@ == list_request(config@),
{
    config.list()
}

/// The request that gets the state of a specified server.
pub fn get_server_state(config: &Config, identifier: &String) -> (request: Request)
    ensures
        request@ == state_request(config@, identifier@),
{
    config.state(identifier.as_str())
}

/// The request that sends `command` to the console of a specified server.
pub fn send_command(config: &Config, identifier: &String, command: &str) -> (request: Request)
    ensures
        request@ == command_request(config@, identifier@, command_object(json_string(command@))),
{
    let literal = json_string_literal(command);
    config.command(identifier.as_str(), command_body(literal.as_str()))
}

/// The request that sends the `list` command to a specified server.
pub fn send_list_command(config: &Config, identifier: &String) -> (request: Request)
    ensures
        request@ == command_request(config@, identifier@, command_object(json_string(LIST_COMMAND@))),
{
    send_command(config, identifier, LIST_COMMAND)
}

} // verus!
