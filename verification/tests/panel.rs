use guardian::error::ConfigError;
use guardian::panel::{
    bearer_text, command_body, get_server_state, get_servers, send_command, send_list_command, Config, Method,
    Request,
};

fn config() -> Config {
    Config::new(
        Some("https://panel.example.com/api".to_string()),
        Some("ptla_management".to_string()),
        Some("ptlc_client".to_string()),
    )
    .unwrap()
}

fn header<'a>(request: &'a Request, name: &str) -> &'a [u8] {
    request.headers.get(name).unwrap().as_bytes()
}

fn failure(made: Result<Config, ConfigError>) -> ConfigError {
    match made {
        Ok(_) => panic!("the settings were accepted"),
        Err(error) => error,
    }
}

#[test]
fn listing_request_goes_to_the_application_interface() {
    let request = get_servers(&config());
    assert_eq!(request.method, Method::Get);
    assert_eq!(request.uri, "https://panel.example.com/api/application/servers?per_page=500");
    assert!(request.body.is_none());
    assert_eq!(request.headers.len(), 4);
    assert_eq!(header(&request, "authorization"), b"Bearer ptla_management");
    assert_eq!(header(&request, "content-type"), b"application/json");
    assert_eq!(header(&request, "accept"), b"application/json");
    assert_eq!(header(&request, "user-agent"), b"guardian/0.1.0");
}

#[test]
fn state_request_goes_to_the_client_interface() {
    let request = get_server_state(&config(), &"1a2b3c4d".to_string());
    assert_eq!(request.method, Method::Get);
    assert_eq!(request.uri, "https://panel.example.com/api/client/servers/1a2b3c4d/resources");
    assert!(request.body.is_none());
    assert_eq!(request.headers.len(), 4);
    assert_eq!(header(&request, "authorization"), b"Bearer ptlc_client");
    assert_eq!(header(&request, "accept"), b"application/json");
}

#[test]
fn command_request_posts_the_command_as_json() {
    let request = send_command(&config(), &"1a2b3c4d".to_string(), "forge tps");
    assert_eq!(request.method, Method::Post);
    assert_eq!(request.uri, "https://panel.example.com/api/client/servers/1a2b3c4d/command");
    assert_eq!(request.body.as_deref(), Some("{\"command\":\"forge tps\"}"));
    assert_eq!(request.headers.len(), 4);
    assert_eq!(header(&request, "authorization"), b"Bearer ptlc_client");
    assert_eq!(header(&request, "content-type"), b"application/json");
}

#[test]
fn command_body_is_the_object_that_serde_json_writes() {
    let commands = ["list", "say \"hi\"", "back\\slash", "line\nbreak", "tab\there", "", "é", "\u{1}"];
    for command in commands {
        let request = send_command(&config(), &"s".to_string(), command);
        let mut members = serde_json::Map::new();
        members.insert("command".to_string(), serde_json::Value::String(command.to_string()));
        let expected = serde_json::Value::Object(members).to_string();
        assert_eq!(request.body, Some(expected));
    }
}

#[test]
fn command_in_the_body_is_escaped() {
    let request = send_command(&config(), &"s".to_string(), "say \"hi\"");
    assert_eq!(request.body.as_deref(), Some("{\"command\":\"say \\\"hi\\\"\"}"));
    let parsed: serde_json::Value = serde_json::from_str(request.body.as_deref().unwrap()).unwrap();
    assert_eq!(parsed.get("command").and_then(|value| value.as_str()), Some("say \"hi\""));
}

#[test]
fn list_command_request_sends_list() {
    let request = send_list_command(&config(), &"9c0d1e2f".to_string());
    assert_eq!(request.method, Method::Post);
    assert_eq!(request.uri, "https://panel.example.com/api/client/servers/9c0d1e2f/command");
    assert_eq!(request.body.as_deref(), Some("{\"command\":\"list\"}"));
    assert_eq!(header(&request, "authorization"), b"Bearer ptlc_client");
}

#[test]
fn body_is_written_around_the_literal() {
    assert_eq!(command_body("\"list\""), "{\"command\":\"list\"}");
    assert_eq!(command_body(""), "{\"command\":}");
}

#[test]
fn credential_header_is_bearer_and_the_token() {
    assert_eq!(bearer_text("abc"), "Bearer abc");
    assert_eq!(bearer_text(""), "Bearer ");
}

#[test]
fn missing_settings_are_reported_in_order() {
    let value = || Some("x".to_string());
    assert_eq!(failure(Config::new(None, None, None)), ConfigError::MissingServerUri);
    assert_eq!(failure(Config::new(None, value(), value())), ConfigError::MissingServerUri);
    assert_eq!(failure(Config::new(value(), None, None)), ConfigError::MissingServerKey);
    assert_eq!(failure(Config::new(value(), None, value())), ConfigError::MissingServerKey);
    assert_eq!(failure(Config::new(value(), value(), None)), ConfigError::MissingClientKey);
    assert!(Config::new(value(), value(), value()).is_ok());
}

#[test]
fn tokens_that_cannot_be_sent_are_refused_at_startup() {
    let value = || Some("x".to_string());
    let broken = || Some("to\nken".to_string());
    assert_eq!(failure(Config::new(value(), broken(), value())), ConfigError::UnusableServerKey);
    assert_eq!(failure(Config::new(value(), value(), broken())), ConfigError::UnusableClientKey);
    assert_eq!(failure(Config::new(value(), broken(), broken())), ConfigError::UnusableServerKey);
    assert_eq!(failure(Config::new(value(), broken(), None)), ConfigError::MissingClientKey);
}

#[test]
fn configuration_errors_name_their_setting() {
    assert_eq!(ConfigError::MissingServerUri.variable(), "SERVER_URI");
    assert_eq!(ConfigError::MissingServerKey.variable(), "SERVER_KEY");
    assert_eq!(ConfigError::MissingClientKey.variable(), "CLIENT_KEY");
    assert_eq!(ConfigError::UnusableServerKey.variable(), "SERVER_KEY");
    assert_eq!(ConfigError::UnusableClientKey.variable(), "CLIENT_KEY");
}
