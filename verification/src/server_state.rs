//! The state of the scanner as the server sees it (which clients are connected, and what the
//! camera said about itself), and the server's answer to each message from a client.
//!
//! A client opens its connection by declaring its type
//! ([`parse_client_type_declaration`](crate::client_impl::parse_client_type_declaration)); the
//! server then accepts it ([`ScannerState::accept_client`]), or refuses it where a client of the
//! same type is already connected, routes each of its messages ([`ScannerState::camera_msg_reaction`],
//! [`ScannerState::controller_msg_reaction`]), and forgets it when it goes
//! ([`ScannerState::disconnect_client`]).

use crate::scan_manager::ScanManagerMsg;
use crate::scanner_shared::{
    BasicCameraInfo, CameraToServerMsg, ClientType, CompassDirection, ControllerToServerMsg,
    GenericServerToClientMsg, ServerToCameraMsg, ServerToControllerMsg,
};
use vstd::prelude::*;

verus! {

/// The state of the scanner as a whole - the server, camera client, and controller client.
#[derive(Clone, Copy, Debug)]
pub struct ScannerState {
    /// Is the camera connected?
    pub camera_conn: bool,
    /// Is the controller connected?
    pub controller_conn: bool,
    /// The info of the camera if it's connected.
    pub camera_info: Option<BasicCameraInfo>,
}

/// A client broke the protocol, and its connection must be closed.
#[derive(Clone, Copy, Debug, PartialEq, Eq, Structural)]
pub enum ProtocolError {
    /// The client declared its type again after the handshake.
    DeclarationAfterHandshake,
}

/// What the server does on a message from a client: the message to send back to that client, and
/// the message to hand to the scan manager.
#[derive(Clone, Copy, Debug)]
pub struct Reaction<R> {
    /// The reply to the client, if any.
    pub reply: Option<R>,
    /// The message for the scan manager, if any.
    pub to_scan_manager: Option<ScanManagerMsg>,
}

/// Whether a client of this type is connected.
pub open spec fn is_connected(s: ScannerState, t: ClientType) -> bool {
    match t {
        ClientType::Camera => s.camera_conn,
        ClientType::Controller => s.controller_conn,
    }
}

/// The message that tells the scan manager that a client of this type has connected.
pub open spec fn connected_msg(t: ClientType) -> ScanManagerMsg {
    match t {
        ClientType::Camera => ScanManagerMsg::CameraConnected,
        ClientType::Controller => ScanManagerMsg::ControllerConnected,
    }
}

/// The message that tells the scan manager that a client of this type has disconnected.
pub open spec fn disconnected_msg(t: ClientType) -> ScanManagerMsg {
    match t {
        ClientType::Camera => ScanManagerMsg::CameraDisconnected,
        ClientType::Controller => ScanManagerMsg::ControllerDisconnected,
    }
}

/// The reply that refuses a client: `RejectConnection`, in the message type of that client.
#[derive(Clone, Copy, Debug, PartialEq, Eq, Structural)]
pub enum RejectionReply {
    /// The reply to a camera.
    ToCamera(ServerToCameraMsg),
    /// The reply to a controller.
    ToController(ServerToControllerMsg),
}

/// The reply that refuses a client of type `t`.
pub open spec fn rejection_spec(t: ClientType) -> RejectionReply {
    match t {
        ClientType::Camera => RejectionReply::ToCamera(
            ServerToCameraMsg::Generic(GenericServerToClientMsg::RejectConnection),
        ),
        ClientType::Controller => RejectionReply::ToController(
            ServerToControllerMsg::Generic(GenericServerToClientMsg::RejectConnection),
        ),
    }
}

/// The state after a client of type `t` has declared itself, and the outcome: a client of a type
/// that is already connected is refused with [`rejection_spec`] and nothing changes; otherwise it
/// is connected, and the outcome is the message that tells the scan manager so.
pub open spec fn accept_spec(s: ScannerState, t: ClientType) -> (
    ScannerState,
    Result<ScanManagerMsg, RejectionReply>,
) {
    if is_connected(s, t) {
        (s, Err(rejection_spec(t)))
    } else {
        match t {
            ClientType::Camera => (ScannerState { camera_conn: true, ..s }, Ok(connected_msg(t))),
            ClientType::Controller => (
                ScannerState { controller_conn: true, ..s },
                Ok(connected_msg(t)),
            ),
        }
    }
}

/// The state after the client of type `t` has gone: it is no longer connected, and the camera's
/// info goes with the camera.
pub open spec fn disconnect_spec(s: ScannerState, t: ClientType) -> ScannerState {
    match t {
        ClientType::Camera => ScannerState { camera_conn: false, camera_info: None, ..s },
        ClientType::Controller => ScannerState { controller_conn: false, ..s },
    }
}

/// The server's answer to a message from the camera, and its new camera info.
pub open spec fn camera_reaction_spec(msg: CameraToServerMsg) -> Result<
    Reaction<ServerToCameraMsg>,
    ProtocolError,
> {
    match msg {
        CameraToServerMsg::DeclareClientType => Err(ProtocolError::DeclarationAfterHandshake),
        CameraToServerMsg::EstablishConnection(_) => Ok(
            Reaction {
                reply: Some(ServerToCameraMsg::Generic(GenericServerToClientMsg::AcceptConnection)),
                to_scan_manager: None,
            },
        ),
        CameraToServerMsg::PhotoTaken { light_idx, brightest_pixel_pos, pixel_brightness } => Ok(
            Reaction {
                reply: None,
                to_scan_manager: Some(
                    ScanManagerMsg::ReceivedPhoto { light_idx, brightest_pixel_pos, pixel_brightness },
                ),
            },
        ),
    }
}

/// The server's answer to a message from the controller.
pub open spec fn controller_reaction_spec(msg: ControllerToServerMsg) -> Result<
    Reaction<ServerToControllerMsg>,
    ProtocolError,
> {
    match msg {
        ControllerToServerMsg::DeclareClientType => Err(ProtocolError::DeclarationAfterHandshake),
        ControllerToServerMsg::EstablishConnection => Ok(
            Reaction {
                reply: Some(
                    ServerToControllerMsg::Generic(GenericServerToClientMsg::AcceptConnection),
                ),
                to_scan_manager: None,
            },
        ),
        ControllerToServerMsg::ReadyToTakePhotos { camera_alignment, pause_time_ms } => Ok(
            Reaction {
                reply: None,
                to_scan_manager: Some(
                    ScanManagerMsg::StartTakingPhotos { camera_alignment, pause_time_ms },
                ),
            },
        ),
        ControllerToServerMsg::CancelPhotoSequence => Ok(
            Reaction { reply: None, to_scan_manager: Some(ScanManagerMsg::CancelPhotoSequence) },
        ),
        ControllerToServerMsg::FinishScanning => Ok(
            Reaction { reply: None, to_scan_manager: Some(ScanManagerMsg::FinishScanning) },
        ),
    }
}

impl ScannerState {
    /// Create a new instance of the scanner state with no connections.
    pub fn new() -> (r: Self)
        ensures
            !r.camera_conn,
            !r.controller_conn,
            r.camera_info is None,
    {
        ScannerState { camera_conn: false, controller_conn: false, camera_info: None }
    }

    /// Disconnect the camera client.
    pub fn disconnect_camera(&mut self)
        ensures
            !final(self).camera_conn,
            final(self).camera_info is None,
            final(self).controller_conn == old(self).controller_conn,
    {
        self.camera_conn = false;
        self.camera_info = None;
    }

    /// Disconnect the controller client.
    pub fn disconnect_controller(&mut self)
        ensures
            !final(self).controller_conn,
            final(self).camera_conn == old(self).camera_conn,
            final(self).camera_info == old(self).camera_info,
    {
        self.controller_conn = false;
    }

    /// A client of type `t` has declared itself. If a client of that type is already connected,
    /// the newcomer is rejected: the result is the `RejectConnection` reply to send it before its
    /// connection is closed, and nothing changes. Otherwise it is connected, and the result is
    /// the message that tells the scan manager so.
    pub fn accept_client(&mut self, t: ClientType) -> (r: Result<ScanManagerMsg, RejectionReply>)
        ensures
            (*final(self), r) == accept_spec(*old(self), t),
    {
        match t {
            ClientType::Camera => {
                if self.camera_conn {
                    Err(
                        RejectionReply::ToCamera(
                            ServerToCameraMsg::Generic(GenericServerToClientMsg::RejectConnection),
                        ),
                    )
                } else {
                    self.camera_conn = true;
                    Ok(ScanManagerMsg::CameraConnected)
                }
            },
            ClientType::Controller => {
                if self.controller_conn {
                    Err(
                        RejectionReply::ToController(
                            ServerToControllerMsg::Generic(
                                GenericServerToClientMsg::RejectConnection,
                            ),
                        ),
                    )
                } else {
                    self.controller_conn = true;
                    Ok(ScanManagerMsg::ControllerConnected)
                }
            },
        }
    }

    /// The connection of an accepted client of type `t` has ended: forget the client (and, for the
    /// camera, its info), and return the message that tells the scan manager so.
    pub fn disconnect_client(&mut self, t: ClientType) -> (r: ScanManagerMsg)
        ensures
            *final(self) == disconnect_spec(*old(self), t),
            r == disconnected_msg(t),
    {
        match t {
            ClientType::Camera => {
                self.disconnect_camera();
                ScanManagerMsg::CameraDisconnected
            },
            ClientType::Controller => {
                self.disconnect_controller();
                ScanManagerMsg::ControllerDisconnected
            },
        }
    }

    /// React to a message from the connected camera: a connection request is accepted and the
    /// camera's info kept; a photo goes to the scan manager; a second type declaration breaks the
    /// protocol.
    pub fn camera_msg_reaction(&mut self, msg: CameraToServerMsg) -> (r: Result<
        Reaction<ServerToCameraMsg>,
        ProtocolError,
    >)
        ensures
            r == camera_reaction_spec(msg),
            final(self).camera_conn == old(self).camera_conn,
            final(self).controller_conn == old(self).controller_conn,
            final(self).camera_info == (match msg {
                CameraToServerMsg::EstablishConnection(info) => Some(info),
                _ => old(self).camera_info,
            }),
    {
        match msg {
            CameraToServerMsg::DeclareClientType => Err(ProtocolError::DeclarationAfterHandshake),
            CameraToServerMsg::EstablishConnection(info) => {
                self.camera_info = Some(info);
                Ok(
                    Reaction {
                        reply: Some(
                            ServerToCameraMsg::Generic(GenericServerToClientMsg::AcceptConnection),
                        ),
                        to_scan_manager: None,
                    },
                )
            },
            CameraToServerMsg::PhotoTaken { light_idx, brightest_pixel_pos, pixel_brightness } => {
                Ok(
                    Reaction {
                        reply: None,
                        to_scan_manager: Some(
                            ScanManagerMsg::ReceivedPhoto {
                                light_idx,
                                brightest_pixel_pos,
                                pixel_brightness,
                            },
                        ),
                    },
                )
            },
        }
    }

    /// React to a message from the connected controller: a connection request is accepted; the
    /// requests to start, cancel and finish go to the scan manager; a second type declaration
    /// breaks the protocol.
    pub fn controller_msg_reaction(&self, msg: ControllerToServerMsg) -> (r: Result<
        Reaction<ServerToControllerMsg>,
        ProtocolError,
    >)
        ensures
            r == controller_reaction_spec(msg),
    {
        match msg {
            ControllerToServerMsg::DeclareClientType => Err(
                ProtocolError::DeclarationAfterHandshake,
            ),
            ControllerToServerMsg::EstablishConnection => Ok(
                Reaction {
                    reply: Some(
                        ServerToControllerMsg::Generic(GenericServerToClientMsg::AcceptConnection),
                    ),
                    to_scan_manager: None,
                },
            ),
            ControllerToServerMsg::ReadyToTakePhotos { camera_alignment, pause_time_ms } => Ok(
                Reaction {
                    reply: None,
                    to_scan_manager: Some(
                        ScanManagerMsg::StartTakingPhotos { camera_alignment, pause_time_ms },
                    ),
                },
            ),
            ControllerToServerMsg::CancelPhotoSequence => Ok(
                Reaction { reply: None, to_scan_manager: Some(ScanManagerMsg::CancelPhotoSequence) },
            ),
            ControllerToServerMsg::FinishScanning => Ok(
                Reaction { reply: None, to_scan_manager: Some(ScanManagerMsg::FinishScanning) },
            ),
        }
    }
}

/// Terminate all the current client connections: the messages to send to the camera and to the
/// controller, for when the server shuts down.
pub fn terminate_all_client_connections() -> (r: (ServerToCameraMsg, ServerToControllerMsg))
    ensures
        r.0 == ServerToCameraMsg::Generic(GenericServerToClientMsg::TerminateConnection),
        r.1 == ServerToControllerMsg::Generic(GenericServerToClientMsg::TerminateConnection),
{
    (
        ServerToCameraMsg::Generic(GenericServerToClientMsg::TerminateConnection),
        ServerToControllerMsg::Generic(GenericServerToClientMsg::TerminateConnection),
    )
}

/// At most one client of each type is connected at a time: a second client of a type that is
/// already connected is refused with `RejectConnection` and changes nothing, and once the first
/// one has gone a new one is accepted. Clients of the other type are not affected either way.
pub proof fn law_one_client_per_type(s: ScannerState, t: ClientType, u: ClientType)
    requires
        u != t,
    ensures
        is_connected(s, t) ==> accept_spec(s, t) == (s, Err::<ScanManagerMsg, RejectionReply>(
            rejection_spec(t),
        )),
        accept_spec(disconnect_spec(s, t), t).1 == Ok::<ScanManagerMsg, RejectionReply>(
            connected_msg(t),
        ),
        is_connected(accept_spec(s, t).0, t),
        is_connected(accept_spec(s, t).0, u) == is_connected(s, u),
        is_connected(disconnect_spec(s, t), u) == is_connected(s, u),
{
}

/// Every message that a connected client may send after the handshake is either answered or
/// handed on to the scan manager, and only a repeated type declaration is refused.
pub proof fn law_messages_are_routed(c: CameraToServerMsg, m: ControllerToServerMsg)
    ensures
        camera_reaction_spec(c) is Err <==> c == CameraToServerMsg::DeclareClientType,
        controller_reaction_spec(m) is Err <==> m == ControllerToServerMsg::DeclareClientType,
        camera_reaction_spec(c) matches Ok(r) ==> (r.reply is Some || r.to_scan_manager is Some),
        controller_reaction_spec(m) matches Ok(r) ==> (r.reply is Some || r.to_scan_manager is Some),
{
}

/// The server passes what a client says on unchanged: a photo reaches the scan manager with the
/// light, position and brightness that the camera sent; the camera's info is kept as it sent it;
/// the controller's requests reach the scan manager with the side and pause it chose.
pub proof fn law_client_messages_pass_unchanged(
    light_idx: u32,
    pos: (u32, u32),
    brightness: u8,
    info: BasicCameraInfo,
    side: CompassDirection,
    pause: u16,
)
    ensures
        camera_reaction_spec(
            CameraToServerMsg::PhotoTaken {
                light_idx,
                brightest_pixel_pos: pos,
                pixel_brightness: brightness,
            },
        ) matches Ok(r) && r.to_scan_manager == Some(
            ScanManagerMsg::ReceivedPhoto {
                light_idx,
                brightest_pixel_pos: pos,
                pixel_brightness: brightness,
            },
        ) && r.reply is None,
        camera_reaction_spec(CameraToServerMsg::EstablishConnection(info)) matches Ok(r)
            && r.reply == Some(
            ServerToCameraMsg::Generic(GenericServerToClientMsg::AcceptConnection),
        ) && r.to_scan_manager is None,
        controller_reaction_spec(
            ControllerToServerMsg::ReadyToTakePhotos { camera_alignment: side, pause_time_ms: pause },
        ) matches Ok(r) && r.to_scan_manager == Some(
            ScanManagerMsg::StartTakingPhotos { camera_alignment: side, pause_time_ms: pause },
        ) && r.reply is None,
        controller_reaction_spec(ControllerToServerMsg::CancelPhotoSequence) matches Ok(r)
            && r.to_scan_manager == Some(ScanManagerMsg::CancelPhotoSequence),
        controller_reaction_spec(ControllerToServerMsg::FinishScanning) matches Ok(r)
            && r.to_scan_manager == Some(ScanManagerMsg::FinishScanning),
        controller_reaction_spec(ControllerToServerMsg::EstablishConnection) matches Ok(r)
            && r.reply == Some(
            ServerToControllerMsg::Generic(GenericServerToClientMsg::AcceptConnection),
        ),
{
}

} // verus!
