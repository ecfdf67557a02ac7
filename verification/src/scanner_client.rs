//! The decisions of the scanner's clients: how a client's state follows the server's messages,
//! what the controller asks the server for, and how the camera answers a request for a photo.

use crate::camera::{get_brightest_pixel, is_brightest, GrayFrame, Rotation};
use crate::scanner_shared::{
    CameraToServerMsg, CompassDirection, ControllerToServerMsg, GenericServerToClientMsg,
    ServerToCameraMsg, ServerToControllerMsg,
};
use vstd::prelude::*;

verus! {

/// A genericised state for a client.
#[derive(Clone, Copy, Debug, PartialEq, Eq, Structural)]
pub enum GenericClientState {
    /// Waiting to connect to the server.
    WaitingForConnection,
    /// The server rejected the client because another client of the same type was already
    /// connected.
    Rejected,
    /// We're connected but the server is not yet ready to start scanning.
    ServerNotReady,
    /// We're connected and the server is ready to start scanning.
    ServerReady,
}

/// The current state of the client app and its connection to the server.
#[derive(Clone, Copy, Debug, PartialEq, Eq, Structural)]
pub enum AppState {
    /// We're waiting for the user to choose which type of client this will be.
    WaitingForChoice,
    /// We're currently waiting to connect to the server.
    WaitingForConnection,
    /// We're connected to the server.
    Connected,
    /// We were rejected by the server because another client is currently connected.
    Rejected,
}

impl Default for AppState {
    fn default() -> (r: Self)
        ensures
            r == AppState::WaitingForChoice,
    {
        AppState::WaitingForChoice
    }
}

/// What a client does on a generic message from the server.
#[derive(Clone, Copy, Debug, PartialEq, Eq, Structural)]
pub struct GenericResponse {
    /// The new state of the client.
    pub client_state: GenericClientState,
    /// The new state of the app.
    pub app_state: AppState,
    /// Must the client reconnect to the server?
    pub reconnect: bool,
}

/// What a client does on a generic message from the server: accepting a connection or saying it
/// is not ready leaves the client connected but not ready; a rejection rejects it; a termination
/// sends it back to waiting for a connection and makes it reconnect.
pub open spec fn generic_response_spec(msg: GenericServerToClientMsg) -> GenericResponse {
    match msg {
        GenericServerToClientMsg::AcceptConnection | GenericServerToClientMsg::ServerNotReady => {
            GenericResponse {
                client_state: GenericClientState::ServerNotReady,
                app_state: AppState::Connected,
                reconnect: false,
            }
        },
        GenericServerToClientMsg::RejectConnection => GenericResponse {
            client_state: GenericClientState::Rejected,
            app_state: AppState::Rejected,
            reconnect: false,
        },
        GenericServerToClientMsg::TerminateConnection => GenericResponse {
            client_state: GenericClientState::WaitingForConnection,
            app_state: AppState::Rejected,
            reconnect: true,
        },
        GenericServerToClientMsg::ServerReady => GenericResponse {
            client_state: GenericClientState::ServerReady,
            app_state: AppState::Connected,
            reconnect: false,
        },
    }
}

/// Respond to a generic server message by setting the client's state and returning the new
/// state for the app and whether the client must reconnect.
pub fn respond_to_generic_server_message(
    state: &mut GenericClientState,
    msg: GenericServerToClientMsg,
) -> (r: (AppState, bool))
    ensures
        *final(state) == generic_response_spec(msg).client_state,
        r.0 == generic_response_spec(msg).app_state,
        r.1 == generic_response_spec(msg).reconnect,
{
    match msg {
        GenericServerToClientMsg::AcceptConnection | GenericServerToClientMsg::ServerNotReady => {
            *state = GenericClientState::ServerNotReady;
            (AppState::Connected, false)
        },
        GenericServerToClientMsg::RejectConnection => {
            *state = GenericClientState::Rejected;
            (AppState::Rejected, false)
        },
        GenericServerToClientMsg::TerminateConnection => {
            *state = GenericClientState::WaitingForConnection;
            (AppState::Rejected, true)
        },
        GenericServerToClientMsg::ServerReady => {
            *state = GenericClientState::ServerReady;
            (AppState::Connected, false)
        },
    }
}

/// Must a client in this state keep asking the server for a connection? Only one that waits for
/// a connection.
pub open spec fn needs_reconnect_spec(state: GenericClientState) -> bool {
    state == GenericClientState::WaitingForConnection
}

/// Must a client in this state keep asking the server for a connection?
pub fn needs_reconnect(state: GenericClientState) -> (r: bool)
    ensures
        r == needs_reconnect_spec(state),
{
    state == GenericClientState::WaitingForConnection
}

/// The state of a controller client.
#[derive(Clone, Copy, Debug)]
pub struct ControllerWidget {
    /// The state of the connection to the server.
    pub connection: GenericClientState,
    /// The direction of the tree which is currently facing the camera.
    pub direction: CompassDirection,
    /// Are we ready to take photos? Or are we waiting for the camera to finish?
    pub ready_to_take_photos: bool,
    /// The time to pause between taking photos, in milliseconds.
    pub pause_time_ms: u16,
    /// The progress that the server has made scanning the lights, as `(scanned, total)`.
    pub progress: (u16, u16),
}

impl ControllerWidget {
    /// A new controller: waiting to connect, with south facing the camera, ready to take photos
    /// with a pause of 50ms, and no progress.
    pub open spec fn new_spec() -> Self {
        ControllerWidget {
            connection: GenericClientState::WaitingForConnection,
            direction: CompassDirection::South,
            ready_to_take_photos: true,
            pause_time_ms: 50,
            progress: (0, 0),
        }
    }

    /// A new controller, waiting to connect, with south facing the camera, ready to take photos
    /// with a pause of 50ms, and no progress.
    pub fn new() -> (r: Self)
        ensures
            r == Self::new_spec(),
    {
        ControllerWidget {
            connection: GenericClientState::WaitingForConnection,
            direction: CompassDirection::South,
            ready_to_take_photos: true,
            pause_time_ms: 50,
            progress: (0, 0),
        }
    }

    /// Respond to a message from the server, returning the new state for the app (for a generic
    /// message) and whether the client must reconnect.
    ///
    /// At the end of a photo sequence, whether done or cancelled, the controller is ready to take
    /// photos again and its count of scanned lights goes back to zero.
    pub fn respond_to_server_message(&mut self, msg: ServerToControllerMsg) -> (r: (
        Option<AppState>,
        bool,
    ))
        ensures
            match msg {
                ServerToControllerMsg::Generic(m) => {
                    &&& final(self).connection == generic_response_spec(m).client_state
                    &&& r.0 == Some(generic_response_spec(m).app_state)
                    &&& r.1 == generic_response_spec(m).reconnect
                    &&& final(self).ready_to_take_photos == old(self).ready_to_take_photos
                    &&& final(self).progress == old(self).progress
                },
                ServerToControllerMsg::PhotoSequenceDone { .. }
                | ServerToControllerMsg::PhotoSequenceCancelled { .. } => {
                    &&& final(self).connection == old(self).connection
                    &&& r == (None::<AppState>, false)
                    &&& final(self).ready_to_take_photos
                    &&& final(self).progress == (0u16, old(self).progress.1)
                },
                ServerToControllerMsg::ProgressUpdate { scanned, total } => {
                    &&& final(self).connection == old(self).connection
                    &&& r == (None::<AppState>, false)
                    &&& final(self).ready_to_take_photos == old(self).ready_to_take_photos
                    &&& final(self).progress == (scanned, total)
                },
            },
            final(self).direction == old(self).direction,
            final(self).pause_time_ms == old(self).pause_time_ms,
    {
        match msg {
            ServerToControllerMsg::Generic(m) => {
                let (app, reconnect) = respond_to_generic_server_message(&mut self.connection, m);
                (Some(app), reconnect)
            },
            ServerToControllerMsg::PhotoSequenceDone { .. }
            | ServerToControllerMsg::PhotoSequenceCancelled { .. } => {
                self.ready_to_take_photos = true;
                self.progress.0 = 0;
                (None, false)
            },
            ServerToControllerMsg::ProgressUpdate { scanned, total } => {
                self.progress = (scanned, total);
                (None, false)
            },
        }
    }

    /// The user starts a photo sequence: returns the message to send to the server, if the
    /// controller is ready to take photos, and then waits for the sequence to end.
    pub fn start_taking_photos(&mut self) -> (r: Option<ControllerToServerMsg>)
        ensures
            old(self).ready_to_take_photos ==> r == Some(
                ControllerToServerMsg::ReadyToTakePhotos {
                    camera_alignment: old(self).direction,
                    pause_time_ms: old(self).pause_time_ms,
                },
            ) && !final(self).ready_to_take_photos,
            !old(self).ready_to_take_photos ==> r is None && *final(self) == *old(self),
            final(self).direction == old(self).direction,
            final(self).pause_time_ms == old(self).pause_time_ms,
            final(self).progress == old(self).progress,
            final(self).connection == old(self).connection,
    {
        if self.ready_to_take_photos {
            self.ready_to_take_photos = false;
            Some(
                ControllerToServerMsg::ReadyToTakePhotos {
                    camera_alignment: self.direction,
                    pause_time_ms: self.pause_time_ms,
                },
            )
        } else {
            None
        }
    }

    /// The user cancels the photo sequence: returns the message to send to the server, and the
    /// controller is ready to take photos again.
    pub fn cancel_photo_sequence(&mut self) -> (r: ControllerToServerMsg)
        ensures
            r == ControllerToServerMsg::CancelPhotoSequence,
            final(self).ready_to_take_photos,
            final(self).direction == old(self).direction,
            final(self).pause_time_ms == old(self).pause_time_ms,
            final(self).progress == old(self).progress,
            final(self).connection == old(self).connection,
    {
        self.ready_to_take_photos = true;
        ControllerToServerMsg::CancelPhotoSequence
    }
}

/// The state of a camera client that has a working camera.
#[derive(Clone, Copy, Debug, PartialEq, Eq, Structural)]
pub struct InnerCameraWidget {
    /// The state of the connection to the server.
    pub connection: GenericClientState,
    /// The rotation applied to the camera's frames.
    pub rotation: Rotation,
    /// Has the exposure been locked?
    pub exposure_locked: bool,
}

/// What a camera client does on a message from the server.
#[derive(Clone, Copy, Debug)]
pub struct CameraResponse {
    /// The new state for the app, for a generic message.
    pub app_state: Option<AppState>,
    /// Must the client reconnect to the server?
    pub reconnect: bool,
    /// Must the camera's exposure be locked now?
    pub lock_exposure: bool,
    /// The message to send back to the server, if any.
    pub reply: Option<CameraToServerMsg>,
}

/// How a camera client with a working camera responds to a message from the server, given the
/// latest frame from the camera (already rotated): its rotation is unchanged; a generic message
/// goes the generic way; a request to lock the exposure locks it once (a second request does
/// nothing); a request for a photo is answered with the brightest pixel of the frame.
pub open spec fn camera_response_spec(
    old_widget: InnerCameraWidget,
    new_widget: InnerCameraWidget,
    msg: ServerToCameraMsg,
    latest_frame: GrayFrame,
    r: CameraResponse,
) -> bool {
    &&& new_widget.rotation == old_widget.rotation
    &&& match msg {
        ServerToCameraMsg::Generic(m) => {
            &&& new_widget.connection == generic_response_spec(m).client_state
            &&& r.app_state == Some(generic_response_spec(m).app_state)
            &&& r.reconnect == generic_response_spec(m).reconnect
            &&& !r.lock_exposure
            &&& r.reply is None
            &&& new_widget.exposure_locked == old_widget.exposure_locked
        },
        ServerToCameraMsg::LockExposure => {
            &&& new_widget.connection == old_widget.connection
            &&& r.app_state is None && !r.reconnect && r.reply is None
            &&& r.lock_exposure == !old_widget.exposure_locked
            &&& new_widget.exposure_locked
        },
        ServerToCameraMsg::TakePhoto { light_idx } => {
            &&& new_widget.connection == old_widget.connection
            &&& r.app_state is None && !r.reconnect && !r.lock_exposure
            &&& new_widget.exposure_locked == old_widget.exposure_locked
            &&& r.reply matches Some(
                CameraToServerMsg::PhotoTaken { light_idx: l, brightest_pixel_pos, pixel_brightness },
            ) && l == light_idx && is_brightest(
                latest_frame.pixels@,
                latest_frame.width as int,
                latest_frame.pixels@.len() as int,
                (brightest_pixel_pos, pixel_brightness),
            )
        },
    }
}

impl InnerCameraWidget {
    /// A new camera client: waiting to connect, with no rotation and the exposure not locked.
    pub open spec fn new_spec() -> Self {
        InnerCameraWidget {
            connection: GenericClientState::WaitingForConnection,
            rotation: Rotation::Original,
            exposure_locked: false,
        }
    }

    /// A new camera client, waiting to connect, with no rotation and the exposure not locked.
    pub fn new() -> (r: Self)
        ensures
            r == Self::new_spec(),
    {
        InnerCameraWidget {
            connection: GenericClientState::WaitingForConnection,
            rotation: Rotation::Original,
            exposure_locked: false,
        }
    }

    /// Respond to a message from the server, given the latest frame from the camera (already
    /// rotated).
    ///
    /// Asked to take a photo, the camera answers with the brightest pixel of the frame. Asked to
    /// lock the exposure, it does so once: a second request does nothing.
    pub fn respond_to_server_message(&mut self, msg: ServerToCameraMsg, latest_frame: &GrayFrame) -> (r:
        CameraResponse)
        requires
            latest_frame.wf(),
        ensures
            camera_response_spec(*old(self), *final(self), msg, *latest_frame, r),
    {
        match msg {
            ServerToCameraMsg::Generic(m) => {
                let (app, reconnect) = respond_to_generic_server_message(&mut self.connection, m);
                CameraResponse { app_state: Some(app), reconnect, lock_exposure: false, reply: None }
            },
            ServerToCameraMsg::LockExposure => {
                let lock = !self.exposure_locked;
                self.exposure_locked = true;
                CameraResponse { app_state: None, reconnect: false, lock_exposure: lock, reply: None }
            },
            ServerToCameraMsg::TakePhoto { light_idx } => {
                let (brightest_pixel_pos, pixel_brightness) = get_brightest_pixel(latest_frame);
                CameraResponse {
                    app_state: None,
                    reconnect: false,
                    lock_exposure: false,
                    reply: Some(
                        CameraToServerMsg::PhotoTaken { light_idx, brightest_pixel_pos, pixel_brightness },
                    ),
                }
            },
        }
    }

    /// The user turns the image a quarter turn clockwise.
    pub fn rotate_clockwise(&mut self)
        ensures
            final(self).rotation.quarter_turns() == (old(self).rotation.quarter_turns() + 1) % 4,
            final(self).connection == old(self).connection,
            final(self).exposure_locked == old(self).exposure_locked,
    {
        self.rotation = self.rotation.next_clockwise();
    }

    /// The user turns the image a quarter turn anti-clockwise.
    pub fn rotate_anticlockwise(&mut self)
        ensures
            final(self).rotation.quarter_turns() == (old(self).rotation.quarter_turns() + 3) % 4,
            final(self).connection == old(self).connection,
            final(self).exposure_locked == old(self).exposure_locked,
    {
        self.rotation = self.rotation.next_anticlockwise();
    }
}

/// The camera side of a client: a working camera, or none found on this device.
#[derive(Clone, Copy, Debug)]
pub enum CameraWidget {
    /// This device has a working camera.
    Camera(InnerCameraWidget),
    /// This device doesn't have a working camera.
    NoCameraFound,
}

impl CameraWidget {
    /// The camera side of a new client: a new camera client where a camera was found.
    pub open spec fn new_spec(camera_found: bool) -> Self {
        if camera_found {
            CameraWidget::Camera(InnerCameraWidget::new_spec())
        } else {
            CameraWidget::NoCameraFound
        }
    }

    /// The camera side of a client, with or without a camera.
    pub fn new(camera_found: bool) -> (r: Self)
        ensures
            r == Self::new_spec(camera_found),
    {
        if camera_found {
            CameraWidget::Camera(InnerCameraWidget::new())
        } else {
            CameraWidget::NoCameraFound
        }
    }

    /// Respond to a message from the server with a working camera; without a camera the app is
    /// told that it is connected, so that it shows the camera's error.
    pub fn respond_to_server_message(&mut self, msg: ServerToCameraMsg, latest_frame: &GrayFrame) -> (r:
        CameraResponse)
        requires
            latest_frame.wf(),
        ensures
            *old(self) is NoCameraFound ==> *final(self) is NoCameraFound && r.app_state == Some(
                AppState::Connected,
            ) && !r.reconnect && !r.lock_exposure && r.reply is None,
            *old(self) matches CameraWidget::Camera(c) ==> (*final(self) matches CameraWidget::Camera(
                d,
            ) && camera_response_spec(c, d, msg, *latest_frame, r)),
    {
        match self {
            CameraWidget::Camera(inner) => inner.respond_to_server_message(msg, latest_frame),
            CameraWidget::NoCameraFound => CameraResponse {
                app_state: Some(AppState::Connected),
                reconnect: false,
                lock_exposure: false,
                reply: None,
            },
        }
    }
}

/// What type of client the user chooses this device to be.
#[derive(Clone, Copy, Debug, PartialEq, Eq, Structural)]
pub enum ClientChoice {
    /// A camera client.
    Camera,
    /// A controller client.
    Controller,
    /// Both a camera and a controller.
    Both,
}

/// The scanner's client app: the state of the app and the clients that the user has chosen.
#[derive(Clone, Copy, Debug)]
pub struct App {
    /// The state of the app.
    pub app_state: AppState,
    /// The camera client, if this device is one.
    pub camera_widget: Option<CameraWidget>,
    /// The controller client, if this device is one.
    pub controller_widget: Option<ControllerWidget>,
}

impl App {
    /// A new app, waiting for the user to choose a type of client.
    pub fn new() -> (r: Self)
        ensures
            r.app_state == AppState::WaitingForChoice,
            r.camera_widget is None,
            r.controller_widget is None,
    {
        App { app_state: AppState::WaitingForChoice, camera_widget: None, controller_widget: None }
    }

    /// The user chooses the type of this client: the chosen clients are created (the camera one
    /// with or without a camera) and the app waits for a connection.
    pub fn choose_client(&mut self, choice: ClientChoice, camera_found: bool)
        ensures
            final(self).app_state == AppState::WaitingForConnection,
            (choice == ClientChoice::Camera || choice == ClientChoice::Both)
                ==> final(self).camera_widget == Some(CameraWidget::new_spec(camera_found)),
            (choice == ClientChoice::Controller || choice == ClientChoice::Both)
                ==> final(self).controller_widget == Some(ControllerWidget::new_spec()),
            choice == ClientChoice::Camera
                ==> final(self).controller_widget == old(self).controller_widget,
            choice == ClientChoice::Controller
                ==> final(self).camera_widget == old(self).camera_widget,
    {
        match choice {
            ClientChoice::Camera => {
                self.camera_widget = Some(CameraWidget::new(camera_found));
            },
            ClientChoice::Controller => {
                self.controller_widget = Some(ControllerWidget::new());
            },
            ClientChoice::Both => {
                self.camera_widget = Some(CameraWidget::new(camera_found));
                self.controller_widget = Some(ControllerWidget::new());
            },
        }
        self.app_state = AppState::WaitingForConnection;
    }

    /// Take the new app states that the camera and the controller asked for after their
    /// messages; where both asked, the controller's comes last and wins.
    pub fn update_app_state(&mut self, from_camera: Option<AppState>, from_controller: Option<AppState>)
        ensures
            final(self).app_state == (match from_controller {
                Some(s) => s,
                None => match from_camera {
                    Some(s) => s,
                    None => old(self).app_state,
                },
            }),
            final(self).camera_widget == old(self).camera_widget,
            final(self).controller_widget == old(self).controller_widget,
    {
        if let Some(s) = from_camera {
            self.app_state = s;
        }
        if let Some(s) = from_controller {
            self.app_state = s;
        }
    }
}

/// Whatever state a client is in, a generic message from the server puts it in the same state:
/// the response depends on the message alone. In particular a termination always makes the client
/// reconnect, and only a termination does.
pub proof fn law_generic_response_depends_on_message_only(msg: GenericServerToClientMsg)
    ensures
        generic_response_spec(msg).reconnect <==> msg == GenericServerToClientMsg::TerminateConnection,
        generic_response_spec(msg).app_state == AppState::Connected <==> (msg
            == GenericServerToClientMsg::AcceptConnection || msg
            == GenericServerToClientMsg::ServerNotReady || msg
            == GenericServerToClientMsg::ServerReady),
        generic_response_spec(msg).client_state == GenericClientState::ServerReady <==> msg
            == GenericServerToClientMsg::ServerReady,
{
}

/// Only a termination drops a client back to asking for a connection: a rejection leaves it
/// rejected, an accepted connection or a server that is not ready leaves it connected but not
/// ready, and a ready server makes it ready. So the client's state says which of these messages
/// came last.
pub proof fn law_generic_client_state(msg: GenericServerToClientMsg)
    ensures
        generic_response_spec(msg).client_state == GenericClientState::WaitingForConnection <==> msg
            == GenericServerToClientMsg::TerminateConnection,
        generic_response_spec(msg).client_state == GenericClientState::Rejected <==> msg
            == GenericServerToClientMsg::RejectConnection,
        generic_response_spec(msg).client_state == GenericClientState::ServerNotReady <==> (msg
            == GenericServerToClientMsg::AcceptConnection || msg
            == GenericServerToClientMsg::ServerNotReady),
        msg != GenericServerToClientMsg::TerminateConnection ==> !needs_reconnect_spec(
            generic_response_spec(msg).client_state,
        ),
{
}

} // verus!
