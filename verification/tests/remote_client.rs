use winter_wonderlights::remote_client::{App, AppState, ClientAction, ServerToClientMsg};

#[test]
fn remote_client_connects_test() {
    let mut app: App<u32> = App::new();
    assert!(app.needs_reconnect());
    // Shared state before the connection is accepted makes the client ask again.
    assert_eq!(
        app.respond_to_server_message(ServerToClientMsg::UpdateClientState(7)),
        ClientAction::EstablishConnection
    );
    assert!(matches!(app.state, AppState::WaitingForConnection));
    assert_eq!(
        app.respond_to_server_message(ServerToClientMsg::EstablishConnection {
            protocol_version: "1.0".to_string(),
            server_version: "2.3".to_string(),
        }),
        ClientAction::Nothing
    );
    assert_eq!(app.tracked_server_version.as_deref(), Some("2.3"));
    assert_eq!(
        app.respond_to_server_message(ServerToClientMsg::UpdateClientState(9)),
        ClientAction::Nothing
    );
    match &app.state {
        AppState::Connected { state, server_version } => {
            assert_eq!(*state, 9);
            assert_eq!(server_version, "2.3");
        }
        _ => panic!("the app should be connected"),
    }
    assert!(!app.needs_reconnect());
    assert_eq!(
        app.respond_to_server_message(ServerToClientMsg::TerminateConnection),
        ClientAction::Reconnect
    );
    assert!(app.needs_reconnect());
}

#[test]
fn remote_client_protocol_mismatch_test() {
    let mut app: App<()> = App::new();
    app.respond_to_server_message(ServerToClientMsg::DenyConnection {
        protocol_version: "0.9".to_string(),
        server_version: "1.1".to_string(),
    });
    match &app.state {
        AppState::ProtocolMismatch { server_version, server_protocol_version } => {
            assert_eq!(server_version, "1.1");
            assert_eq!(server_protocol_version, "0.9");
        }
        _ => panic!("the app should be in the protocol mismatch state"),
    }
    assert_eq!(app.tracked_server_version, None);
}
