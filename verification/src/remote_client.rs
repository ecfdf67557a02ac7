//! The decisions of the remote client of the tree's server: how the state of the client app
//! follows the server's messages. The state that the server shares with its clients is a type
//! parameter here, since the client only stores it.

use vstd::prelude::*;

verus! {

/// A message from the tree's server to a client.
pub enum ServerToClientMsg<S> {
    /// The server accepts the connection.
    EstablishConnection {
        /// The version of the communications protocol that the server uses.
        protocol_version: String,
        /// The version of the server.
        server_version: String,
    },
    /// The server refuses the connection because the client uses another version of the
    /// communications protocol.
    DenyConnection {
        /// The version of the protocol that the server uses.
        protocol_version: String,
        /// The version of the server.
        server_version: String,
    },
    /// The state that the server shares with its clients has changed.
    UpdateClientState(S),
    /// The server is terminating the connection.
    TerminateConnection,
}

/// The current state of the app and its connection to the server.
pub enum AppState<S> {
    /// We're currently waiting to connect to the server.
    WaitingForConnection,
    /// We're connected to the server and we're holding on to its shared state.
    Connected {
        /// The state shared by the server.
        state: S,
        /// The version of the server that we're connected to.
        server_version: String,
    },
    /// The client and server use different versions of the communications protocol, so we can't
    /// communicate.
    ProtocolMismatch {
        /// The version of the server that rejected us.
        server_version: String,
        /// The version of the protocol that the server is using.
        server_protocol_version: String,
    },
}

/// What the app must do after a message from the server, besides changing its state.
#[derive(Clone, Copy, Debug, PartialEq, Eq, Structural)]
pub enum ClientAction {
    /// Nothing.
    Nothing,
    /// Send a new request to establish a connection.
    EstablishConnection,
    /// Reconnect to the server.
    Reconnect,
}

/// The client app: its state, and the version of the server it last heard of.
pub struct App<S> {
    /// The state of the app.
    pub state: AppState<S>,
    /// The version of the server, once the server has accepted the connection.
    pub tracked_server_version: Option<String>,
}

/// The views of an optional string.
pub open spec fn opt_view(s: Option<String>) -> Option<Seq<char>> {
    match s {
        Some(v) => Some(v@),
        None => None,
    }
}

impl<S> App<S> {
    /// A new app, waiting to connect to the server.
    pub fn new() -> (r: Self)
        ensures
            r.state is WaitingForConnection,
            r.tracked_server_version is None,
    {
        App { state: AppState::WaitingForConnection, tracked_server_version: None }
    }

    /// Respond to a message from the server.
    ///
    /// An accepted connection records the server's version; a denied one puts the app in the
    /// protocol mismatch state. New shared state connects the app, if the server's version is
    /// known; otherwise the app asks for a connection again. A termination sends the app back to
    /// waiting for a connection, and it reconnects.
    pub fn respond_to_server_message(&mut self, msg: ServerToClientMsg<S>) -> (r: ClientAction)
        ensures
            match msg {
                ServerToClientMsg::EstablishConnection { server_version, .. } => {
                    &&& opt_view(final(self).tracked_server_version) == Some(server_version@)
                    &&& final(self).state == old(self).state
                    &&& r == ClientAction::Nothing
                },
                ServerToClientMsg::DenyConnection { protocol_version, server_version } => {
                    &&& final(self).state matches AppState::ProtocolMismatch {
                        server_version: v,
                        server_protocol_version: p,
                    } && v@ == server_version@ && p@ == protocol_version@
                    &&& opt_view(final(self).tracked_server_version) == opt_view(
                        old(self).tracked_server_version,
                    )
                    &&& r == ClientAction::Nothing
                },
                ServerToClientMsg::UpdateClientState(state) => {
                    &&& opt_view(final(self).tracked_server_version) == opt_view(
                        old(self).tracked_server_version,
                    )
                    &&& match old(self).tracked_server_version {
                        Some(v) => {
                            &&& final(self).state matches AppState::Connected {
                                state: s,
                                server_version: w,
                            } && s == state && w@ == v@
                            &&& r == ClientAction::Nothing
                        },
                        None => {
                            &&& final(self).state == old(self).state
                            &&& r == ClientAction::EstablishConnection
                        },
                    }
                },
                ServerToClientMsg::TerminateConnection => {
                    &&& final(self).state is WaitingForConnection
                    &&& opt_view(final(self).tracked_server_version) == opt_view(
                        old(self).tracked_server_version,
                    )
                    &&& r == ClientAction::Reconnect
                },
            },
    {
        match msg {
            ServerToClientMsg::EstablishConnection { server_version, .. } => {
                self.tracked_server_version = Some(server_version);
                ClientAction::Nothing
            },
            ServerToClientMsg::DenyConnection { protocol_version, server_version } => {
                self.state = AppState::ProtocolMismatch {
                    server_version,
                    server_protocol_version: protocol_version,
                };
                ClientAction::Nothing
            },
            ServerToClientMsg::UpdateClientState(state) => {
                match &self.tracked_server_version {
                    Some(v) => {
                        let server_version = v.clone();
                        self.state = AppState::Connected { state, server_version };
                        ClientAction::Nothing
                    },
                    None => ClientAction::EstablishConnection,
                }
            },
            ServerToClientMsg::TerminateConnection => {
                self.state = AppState::WaitingForConnection;
                ClientAction::Reconnect
            },
        }
    }

    /// Must the app keep asking the server for a connection?
    pub fn needs_reconnect(&self) -> (r: bool)
        ensures
            r == (self.state is WaitingForConnection),
    {
        match self.state {
            AppState::WaitingForConnection => true,
            _ => false,
        }
    }
}

} // verus!
