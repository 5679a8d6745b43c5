use guardian::servers::{Attributes, CurrentState, ServerInfo, ServerObject, WebResponse};

fn server(id: u32, identifier: &str, name: &str) -> ServerInfo {
    ServerInfo {
        id,
        identifier: identifier.to_string(),
        uuid: format!("{}-0000-0000", identifier),
        name: name.to_string(),
    }
}

#[test]
fn listing_is_unwrapped_in_order() {
    let response = WebResponse {
        data: vec![
            ServerObject { attributes: server(7, "1a2b3c4d", "Survival") },
            ServerObject { attributes: server(9, "5e6f7a8b", "Creative") },
            ServerObject { attributes: server(2, "9c0d1e2f", "Lobby") },
        ],
    };
    let servers = response.into_servers();
    assert_eq!(servers.len(), 3);
    assert_eq!(servers[0].id, 7);
    assert_eq!(servers[0].identifier, "1a2b3c4d");
    assert_eq!(servers[0].uuid, "1a2b3c4d-0000-0000");
    assert_eq!(servers[0].name, "Survival");
    assert_eq!(servers[1].id, 9);
    assert_eq!(servers[1].name, "Creative");
    assert_eq!(servers[2].id, 2);
    assert_eq!(servers[2].identifier, "9c0d1e2f");
}

#[test]
fn empty_listing_holds_no_server() {
    let response = WebResponse { data: Vec::new() };
    assert!(response.into_servers().is_empty());
}

#[test]
fn power_state_is_unwrapped() {
    let answer = Attributes { attributes: CurrentState { current_state: "running".to_string() } };
    assert_eq!(answer.into_state(), "running");
    let answer = Attributes { attributes: CurrentState { current_state: "offline".to_string() } };
    assert_eq!(answer.into_state(), "offline");
}

#[test]
fn copy_of_a_server_says_the_same() {
    let original = server(41, "abcd1234", "Skyblock");
    let copy = original.clone();
    assert_eq!(copy.id, 41);
    assert_eq!(copy.identifier, original.identifier);
    assert_eq!(copy.uuid, original.uuid);
    assert_eq!(copy.name, "Skyblock");
}
