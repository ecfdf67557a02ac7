//! The scan manager: the part of the scanner's server that coordinates the camera and controller
//! clients, lights the tree one light at a time and collects the photos.
//!
//! The manager is a state machine. It changes state when it receives a [`ScanManagerMsg`]
//! ([`ScanManager::respond_to_msg`]), and when it reacts to its current state
//! ([`ScanManager::react_to_state`]). Each step returns the [`ScanAction`]s that the server must
//! then carry out, in order.

use crate::frame::{all_lights, only_light, single_light_colours, uniform_colours, FrameType, FrameView, RGBTuple, white};
use crate::photo_map::{ImgPoint, PhotoMap, PhotoPoint};
use crate::scanner_shared::{
    CompassDirection, CompassDirectionFlags, GenericServerToClientMsg, ServerToCameraMsg,
    ServerToControllerMsg,
};
use vstd::prelude::*;

verus! {

/// Possible messages to send to the scan manager.
#[derive(Clone, Copy, Debug, PartialEq, Eq)]
pub enum ScanManagerMsg {
    /// The camera has connected.
    CameraConnected,
    /// The camera has disconnected.
    CameraDisconnected,
    /// The controller has connected.
    ControllerConnected,
    /// The controller has disconnected.
    ControllerDisconnected,
    /// Start to take photos.
    StartTakingPhotos { camera_alignment: CompassDirection, pause_time_ms: u16 },
    /// Cancel the current photo sequence.
    CancelPhotoSequence,
    /// We've received photo data from the camera.
    ReceivedPhoto { light_idx: u32, brightest_pixel_pos: ImgPoint, pixel_brightness: u8 },
    /// Finish scanning and produce a GIFT file.
    FinishScanning,
}

/// The state of the connections.
#[derive(Clone, Copy, Debug, PartialEq, Eq, Structural)]
pub struct ConnectedState {
    /// Is the camera connected?
    pub camera: bool,
    /// Is the controller connected?
    pub controller: bool,
}

impl Default for ConnectedState {
    fn default() -> (r: Self)
        ensures
            !r.camera && !r.controller,
    {
        ConnectedState { camera: false, controller: false }
    }
}

/// The state of the scan manager.
#[derive(Clone, Copy, Debug, PartialEq, Eq, Structural)]
pub enum ScanManagerState {
    /// We're currently waiting for both clients to connect.
    WaitingForConnections,
    /// Both clients are connected and we're waiting to scan.
    WaitingToScan,
    /// We're ready for the camera to take a photo.
    ReadyToTakePhoto,
    /// We're waiting to receive photo data from the camera.
    WaitingForPhoto,
}

/// Something the server must do after a step of the scan manager.
#[derive(Debug)]
pub enum ScanAction {
    /// Send a message to the camera client. If `must_deliver`, failing to send is an error;
    /// otherwise a failure (no camera connected) is ignored.
    SendToCamera { msg: ServerToCameraMsg, must_deliver: bool },
    /// Send a message to the controller client, with `must_deliver` as for the camera.
    SendToController { msg: ServerToControllerMsg, must_deliver: bool },
    /// Display this frame on the lights.
    DisplayFrame(FrameType),
    /// Pause for this many milliseconds.
    Sleep(u64),
    /// Scanning is finished: make the GIFT file from the photos and stop.
    FinishScanning,
}

/// The mathematical content of a [`ScanAction`].
pub enum ScanActionView {
    SendToCamera { msg: ServerToCameraMsg, must_deliver: bool },
    SendToController { msg: ServerToControllerMsg, must_deliver: bool },
    DisplayFrame(FrameView),
    Sleep(u64),
    FinishScanning,
}

impl View for ScanAction {
    type V = ScanActionView;

    open spec fn view(&self) -> ScanActionView {
        match self {
            ScanAction::SendToCamera { msg, must_deliver } => ScanActionView::SendToCamera {
                msg: *msg,
                must_deliver: *must_deliver,
            },
            ScanAction::SendToController { msg, must_deliver } => ScanActionView::SendToController {
                msg: *msg,
                must_deliver: *must_deliver,
            },
            ScanAction::DisplayFrame(f) => ScanActionView::DisplayFrame(f@),
            ScanAction::Sleep(ms) => ScanActionView::Sleep(*ms),
            ScanAction::FinishScanning => ScanActionView::FinishScanning,
        }
    }
}

/// The actions of a list, as mathematical values.
pub open spec fn actions_view(actions: Seq<ScanAction>) -> Seq<ScanActionView> {
    actions.map_values(|a: ScanAction| a@)
}

/// The mathematical state of the scan manager.
pub struct ScanView {
    /// The number of lights on the tree.
    pub lights_num: nat,
    /// Which clients are connected.
    pub connected: ConnectedState,
    /// The state of the scan.
    pub state: ScanManagerState,
    /// The side of the tree facing the camera in the current (or last) photo sequence.
    pub camera_alignment: CompassDirection,
    /// The sides of the tree that have been scanned.
    pub finished_sides: CompassDirectionFlags,
    /// The pause between photos, in milliseconds.
    pub pause_time: u16,
    /// The photos taken so far, for each side.
    pub photos: Map<CompassDirection, Seq<PhotoPoint>>,
    /// The index of the next light to photograph.
    pub current_idx: nat,
}

/// The photos of a side in a map of photos (none if it has no entry).
pub open spec fn photos_in(photos: Map<CompassDirection, Seq<PhotoPoint>>, d: CompassDirection) -> Seq<PhotoPoint> {
    if photos.contains_key(d) {
        photos[d]
    } else {
        Seq::empty()
    }
}

/// The map of photos after the photos of a side are thrown away (its entry, if any, is kept).
pub open spec fn clear_side(photos: Map<CompassDirection, Seq<PhotoPoint>>, d: CompassDirection) -> Map<CompassDirection, Seq<PhotoPoint>> {
    if photos.contains_key(d) {
        photos.insert(d, Seq::empty())
    } else {
        photos
    }
}

/// What holds of every state of the scan manager.
pub open spec fn scan_inv(v: ScanView) -> bool {
    &&& v.lights_num <= u16::MAX
    &&& v.current_idx <= v.lights_num + 1
    &&& v.state == ScanManagerState::ReadyToTakePhoto ==> {
        &&& v.current_idx <= v.lights_num
        &&& photos_in(v.photos, v.camera_alignment).len() == v.current_idx
    }
    &&& v.state == ScanManagerState::WaitingForPhoto ==> {
        &&& 1 <= v.current_idx <= v.lights_num
        &&& photos_in(v.photos, v.camera_alignment).len() == v.current_idx - 1
    }
}

/// The messages that the scan manager can take in the given state: it only finishes once enough
/// sides have been scanned, and a photo it is waiting for must be of the light it lit last.
pub open spec fn msg_allowed(v: ScanView, msg: ScanManagerMsg) -> bool {
    match msg {
        ScanManagerMsg::FinishScanning => CompassDirectionFlags::required_sides().subset_of(
            v.finished_sides@,
        ),
        ScanManagerMsg::ReceivedPhoto { light_idx, .. } => v.state
            == ScanManagerState::WaitingForPhoto ==> light_idx + 1 == v.current_idx,
        _ => true,
    }
}

/// The state of the scan manager after it receives a message.
pub open spec fn msg_step(v: ScanView, msg: ScanManagerMsg) -> ScanView {
    match msg {
        ScanManagerMsg::CameraConnected => ScanView {
            connected: ConnectedState { camera: true, ..v.connected },
            ..v
        },
        ScanManagerMsg::CameraDisconnected => ScanView {
            connected: ConnectedState { camera: false, ..v.connected },
            state: ScanManagerState::WaitingForConnections,
            ..v
        },
        ScanManagerMsg::ControllerConnected => ScanView {
            connected: ConnectedState { controller: true, ..v.connected },
            ..v
        },
        ScanManagerMsg::ControllerDisconnected => ScanView {
            connected: ConnectedState { controller: false, ..v.connected },
            state: ScanManagerState::WaitingForConnections,
            ..v
        },
        ScanManagerMsg::StartTakingPhotos { camera_alignment, pause_time_ms } => ScanView {
            current_idx: 0,
            camera_alignment,
            pause_time: pause_time_ms,
            photos: clear_side(v.photos, camera_alignment),
            state: ScanManagerState::ReadyToTakePhoto,
            ..v
        },
        ScanManagerMsg::CancelPhotoSequence => ScanView {
            photos: clear_side(v.photos, v.camera_alignment),
            finished_sides: v.finished_sides.spec_remove(v.camera_alignment),
            state: ScanManagerState::WaitingToScan,
            ..v
        },
        ScanManagerMsg::ReceivedPhoto { brightest_pixel_pos, pixel_brightness, .. } => {
            if v.state == ScanManagerState::WaitingForPhoto {
                ScanView {
                    photos: v.photos.insert(
                        v.camera_alignment,
                        photos_in(v.photos, v.camera_alignment).push(
                            (brightest_pixel_pos, pixel_brightness),
                        ),
                    ),
                    state: ScanManagerState::ReadyToTakePhoto,
                    ..v
                }
            } else {
                v
            }
        },
        ScanManagerMsg::FinishScanning => v,
    }
}

/// The actions the scan manager asks for when it receives a message.
pub open spec fn msg_actions(v: ScanView, msg: ScanManagerMsg) -> Seq<ScanActionView> {
    match msg {
        ScanManagerMsg::CameraDisconnected => seq![
            ScanActionView::SendToController {
                msg: ServerToControllerMsg::Generic(GenericServerToClientMsg::ServerNotReady),
                must_deliver: false,
            },
        ],
        ScanManagerMsg::ControllerDisconnected => seq![
            ScanActionView::SendToCamera {
                msg: ServerToCameraMsg::Generic(GenericServerToClientMsg::ServerNotReady),
                must_deliver: false,
            },
        ],
        ScanManagerMsg::StartTakingPhotos { .. } => seq![
            ScanActionView::SendToCamera { msg: ServerToCameraMsg::LockExposure, must_deliver: true },
            ScanActionView::Sleep(100),
        ],
        ScanManagerMsg::CancelPhotoSequence => seq![
            ScanActionView::SendToController {
                msg: ServerToControllerMsg::PhotoSequenceCancelled {
                    finished_sides: v.finished_sides.spec_remove(v.camera_alignment),
                },
                must_deliver: true,
            },
        ],
        ScanManagerMsg::ReceivedPhoto { light_idx, .. } => {
            if v.state == ScanManagerState::WaitingForPhoto {
                seq![
                    ScanActionView::SendToController {
                        msg: ServerToControllerMsg::ProgressUpdate {
                            scanned: (light_idx + 1) as u16,
                            total: v.lights_num as u16,
                        },
                        must_deliver: true,
                    },
                ]
            } else {
                seq![]
            }
        },
        ScanManagerMsg::FinishScanning => seq![ScanActionView::FinishScanning],
        _ => seq![],
    }
}

/// Does the scan manager, in this state, finish a photo sequence when it next reacts?
pub open spec fn react_finishes_sequence(v: ScanView) -> bool {
    v.state == ScanManagerState::ReadyToTakePhoto && v.current_idx >= v.lights_num
}

/// The state of the scan manager after it reacts to its state.
pub open spec fn react_step(v: ScanView) -> ScanView {
    if v.state == ScanManagerState::WaitingForConnections && v.connected.camera
        && v.connected.controller {
        ScanView { state: ScanManagerState::WaitingToScan, ..v }
    } else if v.state == ScanManagerState::ReadyToTakePhoto {
        if v.current_idx >= v.lights_num {
            ScanView {
                current_idx: v.current_idx + 1,
                finished_sides: v.finished_sides.spec_insert(v.camera_alignment),
                state: ScanManagerState::WaitingToScan,
                ..v
            }
        } else {
            ScanView {
                current_idx: v.current_idx + 1,
                state: ScanManagerState::WaitingForPhoto,
                ..v
            }
        }
    } else {
        v
    }
}

/// The actions the scan manager asks for when it reacts to its state. Every reaction but the one
/// that finishes a photo sequence ends with a pause of 50 milliseconds.
pub open spec fn react_actions(v: ScanView) -> Seq<ScanActionView> {
    if v.state == ScanManagerState::WaitingForConnections && v.connected.camera
        && v.connected.controller {
        seq![
            ScanActionView::Sleep(250),
            ScanActionView::SendToCamera {
                msg: ServerToCameraMsg::Generic(GenericServerToClientMsg::ServerReady),
                must_deliver: true,
            },
            ScanActionView::SendToController {
                msg: ServerToControllerMsg::Generic(GenericServerToClientMsg::ServerReady),
                must_deliver: true,
            },
            ScanActionView::DisplayFrame(FrameView::RawData(all_lights(v.lights_num, white()))),
            ScanActionView::Sleep(50),
        ]
    } else if v.state == ScanManagerState::ReadyToTakePhoto {
        if v.current_idx >= v.lights_num {
            seq![
                ScanActionView::DisplayFrame(FrameView::RawData(all_lights(v.lights_num, white()))),
                ScanActionView::SendToController {
                    msg: ServerToControllerMsg::PhotoSequenceDone {
                        finished_sides: v.finished_sides.spec_insert(v.camera_alignment),
                    },
                    must_deliver: true,
                },
            ]
        } else {
            seq![
                ScanActionView::DisplayFrame(FrameView::RawData(only_light(v.lights_num, v.current_idx as int))),
                ScanActionView::Sleep(v.pause_time as u64),
                ScanActionView::SendToCamera {
                    msg: ServerToCameraMsg::TakePhoto { light_idx: v.current_idx as u32 },
                    must_deliver: true,
                },
                ScanActionView::Sleep(50),
            ]
        }
    } else {
        seq![ScanActionView::Sleep(50)]
    }
}

/// The scan manager itself.
pub struct ScanManager {
    lights_num: usize,
    connected_state: ConnectedState,
    state: ScanManagerState,
    current_camera_alignment: CompassDirection,
    finished_sides: CompassDirectionFlags,
    pause_time: u16,
    photo_map: PhotoMap,
    current_idx: u32,
}

impl View for ScanManager {
    type V = ScanView;

    closed spec fn view(&self) -> ScanView {
        ScanView {
            lights_num: self.lights_num as nat,
            connected: self.connected_state,
            state: self.state,
            camera_alignment: self.current_camera_alignment,
            finished_sides: self.finished_sides,
            pause_time: self.pause_time,
            photos: self.photo_map.view(),
            current_idx: self.current_idx as nat,
        }
    }
}

/// Push actions onto a list, keeping track of its view.
fn push_action(actions: &mut Vec<ScanAction>, a: ScanAction)
    ensures
        actions_view(final(actions)@) == actions_view(old(actions)@).push(a@),
{
    let ghost av = a@;
    actions.push(a);
    assert(actions_view(actions@) =~= actions_view(old(actions)@).push(av));
}

impl ScanManager {
    /// The internal invariant of the scan manager.
    pub closed spec fn wf(&self) -> bool {
        &&& self.photo_map.wf()
        &&& scan_inv(self@)
    }

    /// A scan manager for the given number of lights, waiting for both clients to connect, with
    /// no side scanned and no photos.
    pub fn new(lights_num: usize) -> (r: Self)
        requires
            lights_num <= u16::MAX,
        ensures
            r.wf(),
            r@.lights_num == lights_num,
            r@.connected == (ConnectedState { camera: false, controller: false }),
            r@.state == ScanManagerState::WaitingForConnections,
            r@.camera_alignment == CompassDirection::South,
            r@.finished_sides@ == Set::<CompassDirection>::empty(),
            r@.pause_time == 0,
            r@.photos == Map::<CompassDirection, Seq<PhotoPoint>>::empty(),
            r@.current_idx == 0,
    {
        ScanManager {
            lights_num,
            connected_state: ConnectedState::default(),
            state: ScanManagerState::WaitingForConnections,
            current_camera_alignment: CompassDirection::South,
            finished_sides: CompassDirectionFlags::empty(),
            pause_time: 0,
            photo_map: PhotoMap::new(),
            current_idx: 0,
        }
    }

    /// Can the scan manager take this message in its current state? See [`msg_allowed`].
    pub fn accepts(&self, msg: &ScanManagerMsg) -> (r: bool)
        requires
            self.wf(),
        ensures
            r == msg_allowed(self@, *msg),
    {
        match msg {
            ScanManagerMsg::FinishScanning => self.finished_sides.is_ready_to_finish(),
            ScanManagerMsg::ReceivedPhoto { light_idx, .. } => {
                self.state != ScanManagerState::WaitingForPhoto || (*light_idx as u64) + 1
                    == self.current_idx as u64
            },
            _ => true,
        }
    }

    /// The photos collected so far.
    pub fn photo_map(&self) -> (r: &PhotoMap)
        requires
            self.wf(),
        ensures
            r.wf(),
            r.view() == self@.photos,
    {
        &self.photo_map
    }

    /// Respond to a message, returning the actions the server must carry out.
    pub fn respond_to_msg(&mut self, msg: ScanManagerMsg) -> (r: Vec<ScanAction>)
        requires
            old(self).wf(),
            msg_allowed(old(self)@, msg),
        ensures
            final(self).wf(),
            final(self)@ == msg_step(old(self)@, msg),
            actions_view(r@) == msg_actions(old(self)@, msg),
    {
        let mut actions: Vec<ScanAction> = Vec::new();
        let ghost v = self@;
        match msg {
            ScanManagerMsg::CameraConnected => {
                self.connected_state.camera = true;
            },
            ScanManagerMsg::CameraDisconnected => {
                self.connected_state.camera = false;
                self.state = ScanManagerState::WaitingForConnections;
                push_action(
                    &mut actions,
                    ScanAction::SendToController {
                        msg: ServerToControllerMsg::Generic(GenericServerToClientMsg::ServerNotReady),
                        must_deliver: false,
                    },
                );
            },
            ScanManagerMsg::ControllerConnected => {
                self.connected_state.controller = true;
            },
            ScanManagerMsg::ControllerDisconnected => {
                self.connected_state.controller = false;
                self.state = ScanManagerState::WaitingForConnections;
                push_action(
                    &mut actions,
                    ScanAction::SendToCamera {
                        msg: ServerToCameraMsg::Generic(GenericServerToClientMsg::ServerNotReady),
                        must_deliver: false,
                    },
                );
            },
            ScanManagerMsg::StartTakingPhotos { camera_alignment, pause_time_ms } => {
                self.current_idx = 0;
                self.current_camera_alignment = camera_alignment;
                self.pause_time = pause_time_ms;
                self.photo_map.clear_photos(camera_alignment);
                push_action(
                    &mut actions,
                    ScanAction::SendToCamera { msg: ServerToCameraMsg::LockExposure, must_deliver: true },
                );
                push_action(&mut actions, ScanAction::Sleep(100));
                self.state = ScanManagerState::ReadyToTakePhoto;
            },
            ScanManagerMsg::CancelPhotoSequence => {
                self.photo_map.clear_photos(self.current_camera_alignment);
                self.finished_sides.remove(self.current_camera_alignment);
                self.state = ScanManagerState::WaitingToScan;
                push_action(
                    &mut actions,
                    ScanAction::SendToController {
                        msg: ServerToControllerMsg::PhotoSequenceCancelled {
                            finished_sides: self.finished_sides,
                        },
                        must_deliver: true,
                    },
                );
            },
            ScanManagerMsg::ReceivedPhoto { light_idx, brightest_pixel_pos, pixel_brightness } => {
                if self.state == ScanManagerState::WaitingForPhoto {
                    self.photo_map.push_photo(
                        self.current_camera_alignment,
                        (brightest_pixel_pos, pixel_brightness),
                    );
                    self.state = ScanManagerState::ReadyToTakePhoto;
                    push_action(
                        &mut actions,
                        ScanAction::SendToController {
                            msg: ServerToControllerMsg::ProgressUpdate {
                                scanned: light_idx as u16 + 1,
                                total: self.lights_num as u16,
                            },
                            must_deliver: true,
                        },
                    );
                }
            },
            ScanManagerMsg::FinishScanning => {
                push_action(&mut actions, ScanAction::FinishScanning);
            },
        }
        assert(actions_view(actions@) =~= msg_actions(v, msg));
        assert(self@ =~= msg_step(v, msg));
        actions
    }

    /// React to the current state, returning the actions the server must carry out. The server
    /// runs this in a loop for as long as no message arrives.
    pub fn react_to_state(&mut self) -> (r: Vec<ScanAction>)
        requires
            old(self).wf(),
        ensures
            final(self).wf(),
            final(self)@ == react_step(old(self)@),
            actions_view(r@) == react_actions(old(self)@),
    {
        let mut actions: Vec<ScanAction> = Vec::new();
        let ghost v = self@;
        if self.state == ScanManagerState::WaitingForConnections && self.connected_state.camera
            && self.connected_state.controller {
            push_action(&mut actions, ScanAction::Sleep(250));
            push_action(
                &mut actions,
                ScanAction::SendToCamera {
                    msg: ServerToCameraMsg::Generic(GenericServerToClientMsg::ServerReady),
                    must_deliver: true,
                },
            );
            push_action(
                &mut actions,
                ScanAction::SendToController {
                    msg: ServerToControllerMsg::Generic(GenericServerToClientMsg::ServerReady),
                    must_deliver: true,
                },
            );
            self.state = ScanManagerState::WaitingToScan;
            push_action(
                &mut actions,
                ScanAction::DisplayFrame(
                    FrameType::RawData(uniform_colours(self.lights_num, (255, 255, 255))),
                ),
            );
            push_action(&mut actions, ScanAction::Sleep(50));
        } else if self.state == ScanManagerState::ReadyToTakePhoto {
            let light_idx = self.current_idx;
            self.current_idx = light_idx + 1;
            if light_idx as usize >= self.lights_num {
                self.finished_sides.insert(self.current_camera_alignment);
                self.state = ScanManagerState::WaitingToScan;
                push_action(
                    &mut actions,
                    ScanAction::DisplayFrame(
                        FrameType::RawData(uniform_colours(self.lights_num, (255, 255, 255))),
                    ),
                );
                push_action(
                    &mut actions,
                    ScanAction::SendToController {
                        msg: ServerToControllerMsg::PhotoSequenceDone {
                            finished_sides: self.finished_sides,
                        },
                        must_deliver: true,
                    },
                );
            } else {
                push_action(
                    &mut actions,
                    ScanAction::DisplayFrame(
                        FrameType::RawData(single_light_colours(self.lights_num, light_idx as usize)),
                    ),
                );
                push_action(&mut actions, ScanAction::Sleep(self.pause_time as u64));
                push_action(
                    &mut actions,
                    ScanAction::SendToCamera {
                        msg: ServerToCameraMsg::TakePhoto { light_idx },
                        must_deliver: true,
                    },
                );
                self.state = ScanManagerState::WaitingForPhoto;
                push_action(&mut actions, ScanAction::Sleep(50));
            }
        } else {
            push_action(&mut actions, ScanAction::Sleep(50));
        }
        assert(actions_view(actions@) =~= react_actions(v));
        assert(self@ =~= react_step(v));
        actions
    }
}

} // verus!

verus! {

/// Every step of the scan manager keeps its invariant: the photo list of the side being scanned
/// always holds exactly one photo for each light already photographed in the sequence.
pub proof fn law_scan_invariant_preserved(v: ScanView, msg: ScanManagerMsg)
    requires
        scan_inv(v),
        msg_allowed(v, msg),
    ensures
        scan_inv(msg_step(v, msg)),
        scan_inv(react_step(v)),
{
}

/// When a photo sequence finishes, the side just scanned has exactly one photo per light, the
/// side is added to the finished sides, and the controller is told the new set of finished sides.
pub proof fn law_finished_sequence_is_complete(v: ScanView)
    requires
        scan_inv(v),
        react_finishes_sequence(v),
    ensures
        photos_in(v.photos, v.camera_alignment).len() == v.lights_num,
        react_step(v).finished_sides@ == v.finished_sides@.insert(v.camera_alignment),
        react_step(v).state == ScanManagerState::WaitingToScan,
        react_actions(v).contains(
            ScanActionView::SendToController {
                msg: ServerToControllerMsg::PhotoSequenceDone {
                    finished_sides: react_step(v).finished_sides,
                },
                must_deliver: true,
            },
        ),
{
    v.finished_sides.lemma_insert_remove(v.camera_alignment);
    assert(react_actions(v)[1] == ScanActionView::SendToController {
        msg: ServerToControllerMsg::PhotoSequenceDone {
            finished_sides: react_step(v).finished_sides,
        },
        must_deliver: true,
    });
}

/// Every photo the camera is asked to take is of a light on the tree, and the frame displayed
/// just before lights that light and no other.
pub proof fn law_photo_requests_light_one_light(v: ScanView)
    requires
        scan_inv(v),
        v.state == ScanManagerState::ReadyToTakePhoto,
        !react_finishes_sequence(v),
    ensures
        v.current_idx < v.lights_num,
        react_actions(v)[0] == ScanActionView::DisplayFrame(
            FrameView::RawData(only_light(v.lights_num, v.current_idx as int)),
        ),
        react_actions(v)[2] == (ScanActionView::SendToCamera {
            msg: ServerToCameraMsg::TakePhoto { light_idx: v.current_idx as u32 },
            must_deliver: true,
        }),
        react_step(v).state == ScanManagerState::WaitingForPhoto,
{
}

/// A photo received while one is awaited is stored at the index of its light in the list of the
/// side being scanned, after the photos already taken, which stay as they were.
pub proof fn law_photo_stored_at_its_index(
    v: ScanView,
    light_idx: u32,
    pos: ImgPoint,
    brightness: u8,
)
    requires
        scan_inv(v),
        v.state == ScanManagerState::WaitingForPhoto,
        msg_allowed(
            v,
            ScanManagerMsg::ReceivedPhoto {
                light_idx,
                brightest_pixel_pos: pos,
                pixel_brightness: brightness,
            },
        ),
    ensures
        ({
            let w = msg_step(
                v,
                ScanManagerMsg::ReceivedPhoto {
                    light_idx,
                    brightest_pixel_pos: pos,
                    pixel_brightness: brightness,
                },
            );
            &&& photos_in(w.photos, v.camera_alignment).len() == light_idx + 1
            &&& photos_in(w.photos, v.camera_alignment)[light_idx as int] == (pos, brightness)
            &&& photos_in(w.photos, v.camera_alignment).subrange(0, light_idx as int)
                == photos_in(v.photos, v.camera_alignment)
            &&& w.state == ScanManagerState::ReadyToTakePhoto
        }),
{
    let w = msg_step(
        v,
        ScanManagerMsg::ReceivedPhoto {
            light_idx,
            brightest_pixel_pos: pos,
            pixel_brightness: brightness,
        },
    );
    assert(photos_in(w.photos, v.camera_alignment) == photos_in(v.photos, v.camera_alignment).push(
        (pos, brightness),
    ));
    assert(photos_in(w.photos, v.camera_alignment).subrange(0, light_idx as int)
        =~= photos_in(v.photos, v.camera_alignment));
}

/// The set of finished sides changes only when a photo sequence is cancelled (its side is taken
/// out) or finishes (its side is put in).
pub proof fn law_finished_sides_change_only_at_sequence_ends(v: ScanView, msg: ScanManagerMsg)
    ensures
        !(msg is CancelPhotoSequence) ==> msg_step(v, msg).finished_sides == v.finished_sides,
        msg is CancelPhotoSequence ==> msg_step(v, msg).finished_sides@ == v.finished_sides@.remove(
            v.camera_alignment,
        ),
        !react_finishes_sequence(v) ==> react_step(v).finished_sides == v.finished_sides,
        react_finishes_sequence(v) ==> react_step(v).finished_sides@
            == v.finished_sides@.insert(v.camera_alignment),
{
    v.finished_sides.lemma_insert_remove(v.camera_alignment);
}

/// When either client disconnects, the scan stops until both are connected again, and the other
/// client is told that the server is not ready.
pub proof fn law_disconnect_stops_scan(v: ScanView)
    ensures
        msg_step(v, ScanManagerMsg::CameraDisconnected).state
            == ScanManagerState::WaitingForConnections,
        !msg_step(v, ScanManagerMsg::CameraDisconnected).connected.camera,
        msg_actions(v, ScanManagerMsg::CameraDisconnected) == seq![
            ScanActionView::SendToController {
                msg: ServerToControllerMsg::Generic(GenericServerToClientMsg::ServerNotReady),
                must_deliver: false,
            },
        ],
        msg_step(v, ScanManagerMsg::ControllerDisconnected).state
            == ScanManagerState::WaitingForConnections,
        !msg_step(v, ScanManagerMsg::ControllerDisconnected).connected.controller,
        msg_actions(v, ScanManagerMsg::ControllerDisconnected) == seq![
            ScanActionView::SendToCamera {
                msg: ServerToCameraMsg::Generic(GenericServerToClientMsg::ServerNotReady),
                must_deliver: false,
            },
        ],
{
}

/// Once both clients are connected, the next reaction tells both that the server is ready and
/// waits to scan; while a client is missing, the scan manager only waits.
pub proof fn law_ready_once_both_connected(v: ScanView)
    requires
        v.state == ScanManagerState::WaitingForConnections,
    ensures
        v.connected.camera && v.connected.controller ==> {
            &&& react_step(v).state == ScanManagerState::WaitingToScan
            &&& react_actions(v)[1] == (ScanActionView::SendToCamera {
                msg: ServerToCameraMsg::Generic(GenericServerToClientMsg::ServerReady),
                must_deliver: true,
            })
            &&& react_actions(v)[2] == (ScanActionView::SendToController {
                msg: ServerToControllerMsg::Generic(GenericServerToClientMsg::ServerReady),
                must_deliver: true,
            })
        },
        !(v.connected.camera && v.connected.controller) ==> react_step(v) == v
            && react_actions(v) == seq![ScanActionView::Sleep(50)],
{
}

/// Scanning only finishes once north, east, south and west have all been scanned, and finishing
/// changes nothing in the scan manager.
pub proof fn law_finish_needs_required_sides(v: ScanView)
    requires
        msg_allowed(v, ScanManagerMsg::FinishScanning),
    ensures
        CompassDirectionFlags::required_sides().subset_of(v.finished_sides@),
        msg_step(v, ScanManagerMsg::FinishScanning) == v,
        msg_actions(v, ScanManagerMsg::FinishScanning) == seq![ScanActionView::FinishScanning],
{
}

/// The side whose photos a message may change: the side a new photo sequence is for, and
/// otherwise the side being scanned.
pub open spec fn side_touched(v: ScanView, msg: ScanManagerMsg) -> CompassDirection {
    match msg {
        ScanManagerMsg::StartTakingPhotos { camera_alignment, .. } => camera_alignment,
        _ => v.camera_alignment,
    }
}

/// The photos of every side are kept as the scan goes on: a message changes at most the photos of
/// the side it is about, and reacting to the state never changes any photo. So the photos of the
/// sides scanned before all reach the GIFT file.
pub proof fn law_other_sides_keep_their_photos(v: ScanView, msg: ScanManagerMsg, e: CompassDirection)
    requires
        e != side_touched(v, msg),
    ensures
        msg_step(v, msg).photos.contains_key(e) == v.photos.contains_key(e),
        photos_in(msg_step(v, msg).photos, e) == photos_in(v.photos, e),
        react_step(v).photos == v.photos,
{
}

/// Starting a photo sequence for a side throws away only that side's earlier photos (its entry,
/// if it has one, is kept), keeps every other side's photos, and makes the next reaction light
/// the first light and ask the camera for its photo.
pub proof fn law_start_clears_only_its_side(
    v: ScanView,
    d: CompassDirection,
    pause: u16,
    e: CompassDirection,
)
    requires
        scan_inv(v),
        v.lights_num > 0,
        e != d,
    ensures
        ({
            let w = msg_step(v, ScanManagerMsg::StartTakingPhotos { camera_alignment: d, pause_time_ms: pause });
            &&& photos_in(w.photos, d) == Seq::<PhotoPoint>::empty()
            &&& w.photos.contains_key(d) == v.photos.contains_key(d)
            &&& photos_in(w.photos, e) == photos_in(v.photos, e)
            &&& w.photos.contains_key(e) == v.photos.contains_key(e)
            &&& react_actions(w)[2] == (ScanActionView::SendToCamera {
                msg: ServerToCameraMsg::TakePhoto { light_idx: 0 },
                must_deliver: true,
            })
            &&& w.camera_alignment == d
            &&& w.pause_time == pause
            &&& w.current_idx == 0
            &&& w.finished_sides == v.finished_sides
            &&& w.connected == v.connected
            &&& msg_actions(
                v,
                ScanManagerMsg::StartTakingPhotos { camera_alignment: d, pause_time_ms: pause },
            )[0] == (ScanActionView::SendToCamera {
                msg: ServerToCameraMsg::LockExposure,
                must_deliver: true,
            })
        }),
{
}

/// A client connecting or disconnecting changes only whether that client is connected (and a
/// disconnection stops the scan); everything else of the scan is kept.
pub proof fn law_connections_change_only_their_flag(v: ScanView)
    ensures
        msg_step(v, ScanManagerMsg::CameraConnected).connected.camera,
        msg_step(v, ScanManagerMsg::CameraConnected).connected.controller == v.connected.controller,
        msg_step(v, ScanManagerMsg::ControllerConnected).connected.controller,
        msg_step(v, ScanManagerMsg::ControllerConnected).connected.camera == v.connected.camera,
        msg_step(v, ScanManagerMsg::CameraConnected).state == v.state,
        msg_step(v, ScanManagerMsg::ControllerConnected).state == v.state,
        msg_step(v, ScanManagerMsg::CameraDisconnected).connected.controller
            == v.connected.controller,
        msg_step(v, ScanManagerMsg::ControllerDisconnected).connected.camera == v.connected.camera,
        msg_step(v, ScanManagerMsg::CameraDisconnected).photos == v.photos,
        msg_step(v, ScanManagerMsg::ControllerDisconnected).photos == v.photos,
        msg_step(v, ScanManagerMsg::CameraConnected).photos == v.photos,
        msg_step(v, ScanManagerMsg::ControllerConnected).photos == v.photos,
{
}

/// After a photo that was awaited, the controller is told how many lights of the side have been
/// photographed (the number of photos of that side now) out of all the lights.
pub proof fn law_progress_counts_photos(v: ScanView, light_idx: u32, pos: ImgPoint, brightness: u8)
    requires
        scan_inv(v),
        v.state == ScanManagerState::WaitingForPhoto,
        msg_allowed(
            v,
            ScanManagerMsg::ReceivedPhoto {
                light_idx,
                brightest_pixel_pos: pos,
                pixel_brightness: brightness,
            },
        ),
    ensures
        ({
            let msg = ScanManagerMsg::ReceivedPhoto {
                light_idx,
                brightest_pixel_pos: pos,
                pixel_brightness: brightness,
            };
            msg_actions(v, msg) == seq![
                ScanActionView::SendToController {
                    msg: ServerToControllerMsg::ProgressUpdate {
                        scanned: photos_in(msg_step(v, msg).photos, v.camera_alignment).len() as u16,
                        total: v.lights_num as u16,
                    },
                    must_deliver: true,
                },
            ]
        }),
{
}

/// Cancelling a photo sequence stops the scan: the scan manager waits to scan, its reactions
/// change nothing and only pause, so no light is lit and no photo is asked for until a new
/// sequence starts; the cancelled side's photos are thrown away.
pub proof fn law_cancel_stops_scan(v: ScanView)
    ensures
        ({
            let w = msg_step(v, ScanManagerMsg::CancelPhotoSequence);
            &&& w.state == ScanManagerState::WaitingToScan
            &&& react_step(w) == w
            &&& react_actions(w) == seq![ScanActionView::Sleep(50)]
            &&& photos_in(w.photos, v.camera_alignment) == Seq::<PhotoPoint>::empty()
        }),
{
}

} // verus!
