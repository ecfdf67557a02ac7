use winter_wonderlights::camera::{
    best_camera_index, get_brightest_pixel, rotate, GrayFrame, Rotation,
};
use winter_wonderlights::client_impl::{
    make_declaration, parse_client_type_declaration, ClientToServerMsg, DeclarationError,
};
use winter_wonderlights::frame::FrameType;
use winter_wonderlights::gift_geometry::{
    direction_geometry, get_bounding_box, int_coord_bounds, scan_geometry, IntCoordBounds,
    LightPixels,
};
use winter_wonderlights::photo_map::PhotoMap;
use winter_wonderlights::scan_manager::{ScanAction, ScanManager, ScanManagerMsg};
use winter_wonderlights::scanner_client::{
    needs_reconnect, respond_to_generic_server_message, App, AppState, CameraWidget,
    ClientChoice, ControllerWidget, GenericClientState, InnerCameraWidget,
};
use winter_wonderlights::scanner_shared::{
    BasicCameraInfo, CameraToServerMsg, ClientType, CompassDirection, CompassDirectionFlags,
    ControllerToServerMsg, GenericServerToClientMsg, ServerToCameraMsg, ServerToControllerMsg,
    DECLARE_CLIENT_TYPE_MAGIC,
};
use winter_wonderlights::server_state::{
    terminate_all_client_connections, ProtocolError, RejectionReply, ScannerState,
};

fn flags(ds: &[CompassDirection]) -> CompassDirectionFlags {
    let mut f = CompassDirectionFlags::empty();
    for d in ds {
        f.insert(*d);
    }
    f
}

#[test]
fn declaration_round_trip_test() {
    let camera = make_declaration(ClientType::Camera);
    let controller = make_declaration(ClientType::Controller);
    assert_eq!(camera, [0xBE, 0xEF, 0xAF, 0]);
    assert_eq!(controller, [0xBE, 0xEF, 0xAF, 1]);
    assert_eq!(DECLARE_CLIENT_TYPE_MAGIC, [0xBE, 0xEF, 0xAF]);
    assert_eq!(parse_client_type_declaration(&camera), Ok(ClientType::Camera));
    assert_eq!(parse_client_type_declaration(&controller), Ok(ClientType::Controller));
    assert_eq!(
        CameraToServerMsg::DeclareClientType.is_declare_client_type_message(),
        Some(camera)
    );
    assert_eq!(
        ControllerToServerMsg::make_declare_client_type_message().is_declare_client_type_message(),
        Some(controller)
    );
    assert_eq!(ControllerToServerMsg::EstablishConnection.is_declare_client_type_message(), None);
}

#[test]
fn declaration_errors_test() {
    assert_eq!(
        parse_client_type_declaration(&[0xBE, 0xEF, 0xAF, 2]),
        Err(DeclarationError::UnknownClientType(2))
    );
    assert_eq!(
        parse_client_type_declaration(&[0xBE, 0xEF, 0xAF]),
        Err(DeclarationError::NotADeclaration)
    );
    assert_eq!(
        parse_client_type_declaration(&[0xBE, 0xEF, 0xAF, 0, 0]),
        Err(DeclarationError::NotADeclaration)
    );
    assert_eq!(
        parse_client_type_declaration(&[0xBE, 0xEE, 0xAF, 0]),
        Err(DeclarationError::NotADeclaration)
    );
    assert_eq!(ClientType::try_from(1u8), Ok(ClientType::Controller));
    assert!(ClientType::try_from(7u8).is_err());
    assert_eq!(ClientType::Controller.as_byte(), 1);
}

#[test]
fn compass_direction_test() {
    let all = CompassDirection::all();
    assert_eq!(all.len(), 8);
    let names: Vec<&str> = all.iter().map(|d| d.name()).collect();
    assert_eq!(
        names,
        vec!["North", "North East", "East", "South East", "South", "South West", "West", "North West"]
    );
    let turns: Vec<u8> = all.iter().map(|d| d.turns_from_north()).collect();
    assert_eq!(turns, vec![0, 1, 2, 3, 4, 5, 6, 7]);
    assert_eq!(CompassDirection::SouthWest.bit(), 32);
}

#[test]
fn compass_direction_flags_test() {
    let mut f = CompassDirectionFlags::empty();
    assert_eq!(f.bits(), 0);
    f.insert(CompassDirection::East);
    f.insert(CompassDirection::East);
    assert!(f.contains_direction(CompassDirection::East));
    assert!(!f.contains_direction(CompassDirection::West));
    assert_eq!(f.bits(), 4);
    f.remove(CompassDirection::East);
    f.remove(CompassDirection::North);
    assert_eq!(f.bits(), 0);
    assert_eq!(CompassDirectionFlags::from(CompassDirection::NorthWest).bits(), 128);
    assert_eq!(CompassDirectionFlags::from_bits_retain(0xFF).bits(), 0xFF);
}

#[test]
fn ready_to_finish_test() {
    let (n, ne, e, se) = (
        CompassDirection::North,
        CompassDirection::NorthEast,
        CompassDirection::East,
        CompassDirection::SouthEast,
    );
    let (s, sw, w, nw) = (
        CompassDirection::South,
        CompassDirection::SouthWest,
        CompassDirection::West,
        CompassDirection::NorthWest,
    );
    assert!(!flags(&[]).is_ready_to_finish());
    assert!(!flags(&[n, e, s]).is_ready_to_finish());
    assert!(!flags(&[ne, se, sw, nw]).is_ready_to_finish());
    assert!(flags(&[n, e, s, w]).is_ready_to_finish());
    assert!(flags(&[n, e, s, w, ne]).is_ready_to_finish());
}

/// Take the actions that the manager asks for, as a short description each.
fn describe(actions: &[ScanAction]) -> Vec<String> {
    actions.iter().map(|a| format!("{a:?}")).collect()
}

#[test]
fn scan_manager_sequence_test() {
    let mut m = ScanManager::new(2);
    assert!(m.respond_to_msg(ScanManagerMsg::CameraConnected).is_empty());
    // With only the camera connected, the manager waits.
    assert!(matches!(m.react_to_state().as_slice(), [ScanAction::Sleep(50)]));
    assert!(m.respond_to_msg(ScanManagerMsg::ControllerConnected).is_empty());

    let ready = m.react_to_state();
    assert!(matches!(
        ready.as_slice(),
        [
            ScanAction::Sleep(250),
            ScanAction::SendToCamera {
                msg: ServerToCameraMsg::Generic(GenericServerToClientMsg::ServerReady),
                must_deliver: true
            },
            ScanAction::SendToController {
                msg: ServerToControllerMsg::Generic(GenericServerToClientMsg::ServerReady),
                must_deliver: true
            },
            ScanAction::DisplayFrame(FrameType::RawData(_)),
            ScanAction::Sleep(50),
        ]
    ));
    if let ScanAction::DisplayFrame(FrameType::RawData(v)) = &ready[3] {
        assert_eq!(v, &vec![(255, 255, 255); 2]);
    }

    let start = m.respond_to_msg(ScanManagerMsg::StartTakingPhotos {
        camera_alignment: CompassDirection::North,
        pause_time_ms: 10,
    });
    assert!(matches!(
        start.as_slice(),
        [
            ScanAction::SendToCamera { msg: ServerToCameraMsg::LockExposure, must_deliver: true },
            ScanAction::Sleep(100),
        ]
    ));

    for idx in 0..2u32 {
        let take = m.react_to_state();
        assert_eq!(take.len(), 4);
        match &take[0] {
            ScanAction::DisplayFrame(FrameType::RawData(v)) => {
                let mut expected = vec![(0, 0, 0); 2];
                expected[idx as usize] = (255, 255, 255);
                assert_eq!(v, &expected);
            }
            other => panic!("unexpected action {other:?}"),
        }
        assert!(matches!(take[1], ScanAction::Sleep(10)));
        assert!(matches!(
            take[2],
            ScanAction::SendToCamera { msg: ServerToCameraMsg::TakePhoto { light_idx }, must_deliver: true }
                if light_idx == idx
        ));
        assert!(matches!(take[3], ScanAction::Sleep(50)));

        // While waiting for the photo, a photo of another light is refused.
        let wrong = ScanManagerMsg::ReceivedPhoto {
            light_idx: idx + 1,
            brightest_pixel_pos: (0, 0),
            pixel_brightness: 0,
        };
        assert!(!m.accepts(&wrong));

        let photo = ScanManagerMsg::ReceivedPhoto {
            light_idx: idx,
            brightest_pixel_pos: (10 + idx, 20 + idx),
            pixel_brightness: 100 + idx as u8,
        };
        assert!(m.accepts(&photo));
        let progress = m.respond_to_msg(photo);
        assert!(matches!(
            progress.as_slice(),
            [ScanAction::SendToController {
                msg: ServerToControllerMsg::ProgressUpdate { scanned, total: 2 },
                must_deliver: true
            }] if *scanned == idx as u16 + 1
        ));
    }

    let done = m.react_to_state();
    assert_eq!(done.len(), 2);
    assert!(matches!(done[0], ScanAction::DisplayFrame(FrameType::RawData(_))));
    match &done[1] {
        ScanAction::SendToController {
            msg: ServerToControllerMsg::PhotoSequenceDone { finished_sides },
            must_deliver: true,
        } => assert_eq!(finished_sides.bits(), 1),
        other => panic!("unexpected action {other:?}"),
    }
    assert_eq!(
        m.photo_map().photos(CompassDirection::North),
        &vec![((10, 20), 100), ((11, 21), 101)]
    );
    assert!(!m.photo_map().has_entry(CompassDirection::South));
    // Not enough sides to finish yet.
    assert!(!m.accepts(&ScanManagerMsg::FinishScanning));
    assert_eq!(describe(&m.react_to_state()), vec!["Sleep(50)".to_string()]);
}

#[test]
fn scan_manager_cancel_and_disconnect_test() {
    let mut m = ScanManager::new(3);
    m.respond_to_msg(ScanManagerMsg::CameraConnected);
    m.respond_to_msg(ScanManagerMsg::ControllerConnected);
    m.react_to_state();
    m.respond_to_msg(ScanManagerMsg::StartTakingPhotos {
        camera_alignment: CompassDirection::East,
        pause_time_ms: 0,
    });
    m.react_to_state();
    m.respond_to_msg(ScanManagerMsg::ReceivedPhoto {
        light_idx: 0,
        brightest_pixel_pos: (1, 1),
        pixel_brightness: 9,
    });
    assert_eq!(m.photo_map().photos(CompassDirection::East).len(), 1);

    let cancel = m.respond_to_msg(ScanManagerMsg::CancelPhotoSequence);
    match cancel.as_slice() {
        [ScanAction::SendToController {
            msg: ServerToControllerMsg::PhotoSequenceCancelled { finished_sides },
            must_deliver: true,
        }] => assert_eq!(finished_sides.bits(), 0),
        other => panic!("unexpected actions {other:?}"),
    }
    assert!(m.photo_map().photos(CompassDirection::East).is_empty());

    let gone = m.respond_to_msg(ScanManagerMsg::CameraDisconnected);
    assert!(matches!(
        gone.as_slice(),
        [ScanAction::SendToController {
            msg: ServerToControllerMsg::Generic(GenericServerToClientMsg::ServerNotReady),
            must_deliver: false
        }]
    ));
    assert!(matches!(m.react_to_state().as_slice(), [ScanAction::Sleep(50)]));
    let gone = m.respond_to_msg(ScanManagerMsg::ControllerDisconnected);
    assert!(matches!(
        gone.as_slice(),
        [ScanAction::SendToCamera {
            msg: ServerToCameraMsg::Generic(GenericServerToClientMsg::ServerNotReady),
            must_deliver: false
        }]
    ));
}

#[test]
fn scan_manager_finish_test() {
    let mut m = ScanManager::new(0);
    m.respond_to_msg(ScanManagerMsg::CameraConnected);
    m.respond_to_msg(ScanManagerMsg::ControllerConnected);
    m.react_to_state();
    for d in [
        CompassDirection::North,
        CompassDirection::East,
        CompassDirection::South,
        CompassDirection::West,
    ] {
        assert!(!m.accepts(&ScanManagerMsg::FinishScanning));
        m.respond_to_msg(ScanManagerMsg::StartTakingPhotos { camera_alignment: d, pause_time_ms: 0 });
        // With no lights, the sequence is done at once.
        let done = m.react_to_state();
        assert!(matches!(
            done[1],
            ScanAction::SendToController { msg: ServerToControllerMsg::PhotoSequenceDone { .. }, .. }
        ));
    }
    assert!(m.accepts(&ScanManagerMsg::FinishScanning));
    assert!(matches!(
        m.respond_to_msg(ScanManagerMsg::FinishScanning).as_slice(),
        [ScanAction::FinishScanning]
    ));
}

#[test]
fn scanner_state_test() {
    let mut s = ScannerState::new();
    assert!(!s.camera_conn && !s.controller_conn && s.camera_info.is_none());
    assert_eq!(s.accept_client(ClientType::Camera), Ok(ScanManagerMsg::CameraConnected));
    // A second camera is refused while the first is connected, and told so.
    assert_eq!(
        s.accept_client(ClientType::Camera),
        Err(RejectionReply::ToCamera(ServerToCameraMsg::Generic(
            GenericServerToClientMsg::RejectConnection
        )))
    );
    assert!(s.camera_conn);
    assert_eq!(s.accept_client(ClientType::Controller), Ok(ScanManagerMsg::ControllerConnected));
    assert_eq!(
        s.accept_client(ClientType::Controller),
        Err(RejectionReply::ToController(ServerToControllerMsg::Generic(
            GenericServerToClientMsg::RejectConnection
        )))
    );

    let info = BasicCameraInfo { resolution: (640, 480) };
    let r = s.camera_msg_reaction(CameraToServerMsg::EstablishConnection(info)).unwrap();
    assert_eq!(
        r.reply,
        Some(ServerToCameraMsg::Generic(GenericServerToClientMsg::AcceptConnection))
    );
    assert_eq!(r.to_scan_manager, None);
    assert_eq!(s.camera_info, Some(info));

    let r = s
        .camera_msg_reaction(CameraToServerMsg::PhotoTaken {
            light_idx: 4,
            brightest_pixel_pos: (7, 8),
            pixel_brightness: 9,
        })
        .unwrap();
    assert_eq!(r.reply, None);
    assert_eq!(
        r.to_scan_manager,
        Some(ScanManagerMsg::ReceivedPhoto {
            light_idx: 4,
            brightest_pixel_pos: (7, 8),
            pixel_brightness: 9
        })
    );
    assert_eq!(
        s.camera_msg_reaction(CameraToServerMsg::DeclareClientType).unwrap_err(),
        ProtocolError::DeclarationAfterHandshake
    );

    let r = s.controller_msg_reaction(ControllerToServerMsg::EstablishConnection).unwrap();
    assert_eq!(
        r.reply,
        Some(ServerToControllerMsg::Generic(GenericServerToClientMsg::AcceptConnection))
    );
    let r = s
        .controller_msg_reaction(ControllerToServerMsg::ReadyToTakePhotos {
            camera_alignment: CompassDirection::West,
            pause_time_ms: 30,
        })
        .unwrap();
    assert_eq!(
        r.to_scan_manager,
        Some(ScanManagerMsg::StartTakingPhotos {
            camera_alignment: CompassDirection::West,
            pause_time_ms: 30
        })
    );
    assert_eq!(
        s.controller_msg_reaction(ControllerToServerMsg::CancelPhotoSequence)
            .unwrap()
            .to_scan_manager,
        Some(ScanManagerMsg::CancelPhotoSequence)
    );
    assert_eq!(
        s.controller_msg_reaction(ControllerToServerMsg::FinishScanning)
            .unwrap()
            .to_scan_manager,
        Some(ScanManagerMsg::FinishScanning)
    );
    assert!(s.controller_msg_reaction(ControllerToServerMsg::DeclareClientType).is_err());

    assert_eq!(s.disconnect_client(ClientType::Camera), ScanManagerMsg::CameraDisconnected);
    assert!(!s.camera_conn && s.camera_info.is_none() && s.controller_conn);
    assert_eq!(s.accept_client(ClientType::Camera), Ok(ScanManagerMsg::CameraConnected));
    s.disconnect_controller();
    assert!(!s.controller_conn && s.camera_conn);
    s.disconnect_camera();
    assert!(!s.camera_conn);

    let (to_camera, to_controller) = terminate_all_client_connections();
    assert_eq!(
        to_camera,
        ServerToCameraMsg::Generic(GenericServerToClientMsg::TerminateConnection)
    );
    assert_eq!(
        to_controller,
        ServerToControllerMsg::Generic(GenericServerToClientMsg::TerminateConnection)
    );
}

#[test]
fn generic_client_response_test() {
    let mut state = GenericClientState::WaitingForConnection;
    assert!(needs_reconnect(state));
    assert_eq!(
        respond_to_generic_server_message(&mut state, GenericServerToClientMsg::AcceptConnection),
        (AppState::Connected, false)
    );
    assert_eq!(state, GenericClientState::ServerNotReady);
    assert_eq!(
        respond_to_generic_server_message(&mut state, GenericServerToClientMsg::ServerReady),
        (AppState::Connected, false)
    );
    assert_eq!(state, GenericClientState::ServerReady);
    assert_eq!(
        respond_to_generic_server_message(&mut state, GenericServerToClientMsg::RejectConnection),
        (AppState::Rejected, false)
    );
    assert_eq!(state, GenericClientState::Rejected);
    assert!(!needs_reconnect(state));
    assert_eq!(
        respond_to_generic_server_message(&mut state, GenericServerToClientMsg::TerminateConnection),
        (AppState::Rejected, true)
    );
    assert_eq!(state, GenericClientState::WaitingForConnection);
    assert_eq!(AppState::default(), AppState::WaitingForChoice);
}

#[test]
fn controller_widget_test() {
    let mut c = ControllerWidget::new();
    assert_eq!(c.direction, CompassDirection::South);
    assert_eq!(c.pause_time_ms, 50);
    assert!(c.ready_to_take_photos);
    assert_eq!(
        c.start_taking_photos(),
        Some(ControllerToServerMsg::ReadyToTakePhotos {
            camera_alignment: CompassDirection::South,
            pause_time_ms: 50
        })
    );
    assert!(!c.ready_to_take_photos);
    // A second start while the sequence runs sends nothing.
    assert_eq!(c.start_taking_photos(), None);
    c.respond_to_server_message(ServerToControllerMsg::ProgressUpdate { scanned: 3, total: 9 });
    assert_eq!(c.progress, (3, 9));
    assert_eq!(
        c.respond_to_server_message(ServerToControllerMsg::PhotoSequenceDone {
            finished_sides: CompassDirectionFlags::empty()
        }),
        (None, false)
    );
    assert!(c.ready_to_take_photos);
    assert_eq!(c.progress, (0, 9));
    c.start_taking_photos();
    assert_eq!(c.cancel_photo_sequence(), ControllerToServerMsg::CancelPhotoSequence);
    assert!(c.ready_to_take_photos);
    assert_eq!(
        c.respond_to_server_message(ServerToControllerMsg::Generic(
            GenericServerToClientMsg::ServerReady
        )),
        (Some(AppState::Connected), false)
    );
    assert_eq!(c.connection, GenericClientState::ServerReady);
}

#[test]
fn camera_widget_test() {
    let frame = GrayFrame::from_raw(3, 2, vec![1, 5, 2, 9, 9, 0]).unwrap();
    let mut cam = InnerCameraWidget::new();
    let r = cam.respond_to_server_message(ServerToCameraMsg::TakePhoto { light_idx: 6 }, &frame);
    assert_eq!(
        r.reply,
        Some(CameraToServerMsg::PhotoTaken {
            light_idx: 6,
            brightest_pixel_pos: (0, 1),
            pixel_brightness: 9
        })
    );
    let r = cam.respond_to_server_message(ServerToCameraMsg::LockExposure, &frame);
    assert!(r.lock_exposure);
    assert!(cam.exposure_locked);
    let r = cam.respond_to_server_message(ServerToCameraMsg::LockExposure, &frame);
    assert!(!r.lock_exposure);
    cam.rotate_clockwise();
    assert_eq!(cam.rotation, Rotation::Rotate90);
    cam.rotate_anticlockwise();
    cam.rotate_anticlockwise();
    assert_eq!(cam.rotation, Rotation::Rotate270);

    let mut none = CameraWidget::new(false);
    let r = none.respond_to_server_message(ServerToCameraMsg::LockExposure, &frame);
    assert_eq!(r.app_state, Some(AppState::Connected));
    assert!(matches!(CameraWidget::new(true), CameraWidget::Camera(_)));
}

#[test]
fn client_app_test() {
    let mut app = App::new();
    assert_eq!(app.app_state, AppState::WaitingForChoice);
    app.choose_client(ClientChoice::Both, false);
    assert_eq!(app.app_state, AppState::WaitingForConnection);
    assert!(matches!(app.camera_widget, Some(CameraWidget::NoCameraFound)));
    assert!(app.controller_widget.is_some());
    app.update_app_state(Some(AppState::Connected), Some(AppState::Rejected));
    assert_eq!(app.app_state, AppState::Rejected);
    app.update_app_state(Some(AppState::Connected), None);
    assert_eq!(app.app_state, AppState::Connected);
    app.update_app_state(None, None);
    assert_eq!(app.app_state, AppState::Connected);
}

#[test]
fn rotation_test() {
    let mut r = Rotation::Original;
    for _ in 0..4 {
        r = r.next_clockwise();
    }
    assert_eq!(r, Rotation::Original);
    assert_eq!(Rotation::Rotate90.next_anticlockwise(), Rotation::Original);
    assert_eq!(Rotation::Original.next_anticlockwise(), Rotation::Rotate270);
}

#[test]
fn rotate_frame_test() {
    // 1 2 3
    // 4 5 6
    let f = GrayFrame::from_raw(3, 2, vec![1, 2, 3, 4, 5, 6]).unwrap();
    let r90 = rotate(f.clone(), Rotation::Rotate90);
    assert_eq!((r90.width, r90.height), (2, 3));
    assert_eq!(r90.pixels, vec![4, 1, 5, 2, 6, 3]);
    let r180 = rotate(f.clone(), Rotation::Rotate180);
    assert_eq!(r180.pixels, vec![6, 5, 4, 3, 2, 1]);
    let r270 = rotate(f.clone(), Rotation::Rotate270);
    assert_eq!((r270.width, r270.height), (2, 3));
    assert_eq!(r270.pixels, vec![3, 6, 2, 5, 1, 4]);
    assert_eq!(rotate(f.clone(), Rotation::Original), f);
    assert_eq!(rotate(rotate(f.clone(), Rotation::Rotate90), Rotation::Rotate270), f);
    assert!(GrayFrame::from_raw(3, 2, vec![1, 2]).is_none());
}

#[test]
fn brightest_pixel_test() {
    let f = GrayFrame::from_raw(2, 2, vec![0, 0, 0, 0]).unwrap();
    assert_eq!(get_brightest_pixel(&f), ((0, 0), 0));
    let f = GrayFrame::from_raw(2, 3, vec![3, 7, 1, 7, 2, 0]).unwrap();
    assert_eq!(get_brightest_pixel(&f), ((1, 0), 7));
    let f = GrayFrame::from_raw(0, 0, vec![]).unwrap();
    assert_eq!(get_brightest_pixel(&f), ((0, 0), 0));
}

#[test]
fn bounding_box_test() {
    let points = vec![((5, 9), 1), ((2, 14), 2), ((8, 3), 3)];
    assert_eq!(get_bounding_box(&points), ((2, 3), (8, 14)));
    assert_eq!(get_bounding_box(&[]), ((u32::MAX, u32::MAX), (0, 0)));
}

#[test]
fn direction_geometry_test() {
    let points = vec![((5, 9), 10), ((2, 14), 20), ((8, 3), 30)];
    let g = direction_geometry(CompassDirection::East, &points).unwrap();
    assert_eq!(g.direction, CompassDirection::East);
    // The box is 6 pixels wide, so one unit is 3 pixels and the trunk is at x = 5.
    assert_eq!(g.pixels_per_gift_unit, 3);
    assert_eq!(
        g.lights,
        vec![
            LightPixels { horizontal_offset: 0, height: 5, brightness: 10 },
            LightPixels { horizontal_offset: -3, height: 0, brightness: 20 },
            LightPixels { horizontal_offset: 3, height: 11, brightness: 30 },
        ]
    );
    assert!(direction_geometry(CompassDirection::East, &vec![]).is_none());
}

#[test]
fn scan_geometry_test() {
    let mut map = PhotoMap::new();
    assert!(scan_geometry(&map).is_none());
    map.push_photo(CompassDirection::South, ((0, 0), 1));
    map.push_photo(CompassDirection::South, ((4, 4), 1));
    map.push_photo(CompassDirection::North, ((1, 2), 1));
    // The sides have different numbers of photos.
    assert!(scan_geometry(&map).is_none());
    map.push_photo(CompassDirection::North, ((3, 2), 1));
    let gs = scan_geometry(&map).unwrap();
    let dirs: Vec<CompassDirection> = gs.iter().map(|g| g.direction).collect();
    assert_eq!(dirs, vec![CompassDirection::North, CompassDirection::South]);
    assert_eq!(gs[1].pixels_per_gift_unit, 2);
    map.clear_photos(CompassDirection::North);
    assert!(map.has_entry(CompassDirection::North));
    assert!(scan_geometry(&map).is_none());
}

#[test]
fn int_coord_bounds_test() {
    assert_eq!(int_coord_bounds(&vec![]), None);
    assert_eq!(
        int_coord_bounds(&vec![(1, -2, 3), (-4, 5, 0), (2, 2, 9)]),
        Some(IntCoordBounds { min_x: -4, max_x: 2, min_y: -2, max_y: 5, min_z: 0, max_z: 9 })
    );
}

#[test]
fn best_camera_test() {
    assert_eq!(best_camera_index(&vec![]), None);
    assert_eq!(best_camera_index(&vec![(1, 1)]), Some(0));
    // The camera with the most pixels; of equally good ones, the last.
    assert_eq!(
        best_camera_index(&vec![(640, 480), (1920, 1080), (1080, 1920), (800, 600)]),
        Some(2)
    );
    assert_eq!(best_camera_index(&vec![(1920, 1080), (640, 480)]), Some(0));
}
