//! A sealing trait, so that [`super::ClientToServerMsg`] is only implemented by the client
//! messages of this crate.

use crate::scanner_shared::{CameraToServerMsg, ControllerToServerMsg};
use vstd::prelude::*;

verus! {

/// This trait restricts the implementors of [`super::ClientToServerMsg`].
pub trait Sealed {}

impl Sealed for CameraToServerMsg {}

impl Sealed for ControllerToServerMsg {}

} // verus!
