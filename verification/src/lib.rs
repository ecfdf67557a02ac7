//! Winter WonderLights: the logic behind displaying 3D effects on a Christmas tree of individually
//! addressable RGB LEDs, and behind scanning the positions of those LEDs with a camera.
//!
//! For effect maths and tree coordinates, the vertical axis is z.

pub mod camera;
pub mod client_impl;
pub mod editor;
pub mod effects;
pub mod frame;
pub mod gift_geometry;
pub mod photo_map;
pub mod remote_client;
pub mod scan_manager;
pub mod scanner_client;
pub mod scanner_shared;
pub mod server_state;
pub mod ws2811;
