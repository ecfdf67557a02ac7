//! The messages sent between the scanner's server and its clients.
//!
//! There are two types of client and the server has to be connected to both to function properly.
//! A *camera* client has a camera and takes the pictures of the tree. A *controller* client just
//! tells the server when everything is set up to start taking pictures, and what angle the camera
//! is at from the tree.
//!
//! When a client tries to connect to the server, it *must* first send a [`ClientType`] declaration
//! and then the appropriate `EstablishConnection`(s). A [`ClientType`] declaration is a `[u8; 4]`,
//! where the first three bytes are from [`DECLARE_CLIENT_TYPE_MAGIC`] and the last byte is from
//! [`ClientType`].

use vstd::prelude::*;

verus! {

/// The magic numbers expected at the start of a [`ClientType`] declaration. See the module
/// documentation for details.
pub const DECLARE_CLIENT_TYPE_MAGIC: [u8; 3] = [0xBE, 0xEF, 0xAF];

/// An RGB colour.
pub type RGBArray = [u8; 3];

/// The type of client.
#[derive(Clone, Copy, Debug, PartialEq, Eq, Structural)]
pub enum ClientType {
    /// This client operates the camera.
    Camera,
    /// This client tells the server when the user is ready to take pictures and which side of the
    /// tree is facing the camera.
    Controller,
}

impl ClientType {
    /// The byte that stands for this client type in a declaration.
    pub open spec fn spec_byte(self) -> u8 {
        match self {
            ClientType::Camera => 0,
            ClientType::Controller => 1,
        }
    }

    /// The byte that stands for this client type in a declaration (its discriminant).
    pub fn as_byte(self) -> (b: u8)
        ensures
            b == self.spec_byte(),
    {
        match self {
            ClientType::Camera => 0,
            ClientType::Controller => 1,
        }
    }

    /// The client type that a byte stands for, if any.
    pub open spec fn from_byte_spec(value: u8) -> Option<ClientType> {
        if value == 0 {
            Some(ClientType::Camera)
        } else if value == 1 {
            Some(ClientType::Controller)
        } else {
            None
        }
    }
}

impl TryFrom<u8> for ClientType {
    type Error = &'static str;

    fn try_from(value: u8) -> (r: Result<Self, Self::Error>) {
        if value == 0 {
            Ok(ClientType::Camera)
        } else if value == 1 {
            Ok(ClientType::Controller)
        } else {
            Err("Failed to convert u8 to ClientType")
        }
    }
}

impl vstd::std_specs::convert::TryFromSpecImpl<u8> for ClientType {
    open spec fn obeys_try_from_spec() -> bool {
        true
    }

    open spec fn try_from_spec(v: u8) -> Result<Self, Self::Error> {
        match ClientType::from_byte_spec(v) {
            Some(t) => Ok(t),
            None => Err("Failed to convert u8 to ClientType"),
        }
    }
}

/// Directions of a compass.
#[derive(Clone, Copy, Debug, PartialEq, Eq, Hash, Structural)]
pub enum CompassDirection {
    North,
    NorthEast,
    East,
    SouthEast,
    South,
    SouthWest,
    West,
    NorthWest,
}

impl CompassDirection {
    /// How many clockwise turns of 45 degrees take [`CompassDirection::North`] here.
    pub open spec fn spec_turns(self) -> u8 {
        match self {
            CompassDirection::North => 0,
            CompassDirection::NorthEast => 1,
            CompassDirection::East => 2,
            CompassDirection::SouthEast => 3,
            CompassDirection::South => 4,
            CompassDirection::SouthWest => 5,
            CompassDirection::West => 6,
            CompassDirection::NorthWest => 7,
        }
    }

    /// The direction reached from north by the given number of clockwise turns of 45 degrees.
    pub open spec fn from_turns(turns: int) -> CompassDirection {
        let t = turns % 8;
        if t == 0 {
            CompassDirection::North
        } else if t == 1 {
            CompassDirection::NorthEast
        } else if t == 2 {
            CompassDirection::East
        } else if t == 3 {
            CompassDirection::SouthEast
        } else if t == 4 {
            CompassDirection::South
        } else if t == 5 {
            CompassDirection::SouthWest
        } else if t == 6 {
            CompassDirection::West
        } else {
            CompassDirection::NorthWest
        }
    }

    /// The flag bit of this direction: `1 << turns`.
    pub open spec fn spec_bit(self) -> u8 {
        match self {
            CompassDirection::North => 1,
            CompassDirection::NorthEast => 2,
            CompassDirection::East => 4,
            CompassDirection::SouthEast => 8,
            CompassDirection::South => 16,
            CompassDirection::SouthWest => 32,
            CompassDirection::West => 64,
            CompassDirection::NorthWest => 128,
        }
    }

    /// The human-readable name of this direction.
    pub open spec fn spec_name(self) -> Seq<char> {
        match self {
            CompassDirection::North => "North"@,
            CompassDirection::NorthEast => "North East"@,
            CompassDirection::East => "East"@,
            CompassDirection::SouthEast => "South East"@,
            CompassDirection::South => "South"@,
            CompassDirection::SouthWest => "South West"@,
            CompassDirection::West => "West"@,
            CompassDirection::NorthWest => "North West"@,
        }
    }

    /// The human-readable name of this direction.
    pub fn name(&self) -> (r: &'static str)
        ensures
            r@ == self.spec_name(),
    {
        match self {
            CompassDirection::North => "North",
            CompassDirection::NorthEast => "North East",
            CompassDirection::East => "East",
            CompassDirection::SouthEast => "South East",
            CompassDirection::South => "South",
            CompassDirection::SouthWest => "South West",
            CompassDirection::West => "West",
            CompassDirection::NorthWest => "North West",
        }
    }

    /// How many clockwise turns of 45 degrees do we have to do to get here from
    /// [`CompassDirection::North`]?
    pub fn turns_from_north(&self) -> (r: u8)
        ensures
            r == self.spec_turns(),
            r < 8,
            CompassDirection::from_turns(r as int) == *self,
    {
        match self {
            CompassDirection::North => 0,
            CompassDirection::NorthEast => 1,
            CompassDirection::East => 2,
            CompassDirection::SouthEast => 3,
            CompassDirection::South => 4,
            CompassDirection::SouthWest => 5,
            CompassDirection::West => 6,
            CompassDirection::NorthWest => 7,
        }
    }

    /// The flag bit of this direction, the discriminant the direction has on the wire.
    pub fn bit(&self) -> (r: u8)
        ensures
            r == self.spec_bit(),
    {
        match self {
            CompassDirection::North => 1,
            CompassDirection::NorthEast => 2,
            CompassDirection::East => 4,
            CompassDirection::SouthEast => 8,
            CompassDirection::South => 16,
            CompassDirection::SouthWest => 32,
            CompassDirection::West => 64,
            CompassDirection::NorthWest => 128,
        }
    }

    /// All the directions, clockwise from north.
    pub open spec fn spec_all() -> Seq<CompassDirection> {
        seq![
            CompassDirection::North,
            CompassDirection::NorthEast,
            CompassDirection::East,
            CompassDirection::SouthEast,
            CompassDirection::South,
            CompassDirection::SouthWest,
            CompassDirection::West,
            CompassDirection::NorthWest,
        ]
    }

    /// All the directions, clockwise from north: the order in which they are listed.
    pub fn all() -> (r: Vec<CompassDirection>)
        ensures
            r@ == Self::spec_all(),
    {
        vec![
            CompassDirection::North,
            CompassDirection::NorthEast,
            CompassDirection::East,
            CompassDirection::SouthEast,
            CompassDirection::South,
            CompassDirection::SouthWest,
            CompassDirection::West,
            CompassDirection::NorthWest,
        ]
    }
}

/// Turning a direction into its number of turns and back gives the direction again, and each
/// direction sits at its number of turns in the clockwise list of all directions.
pub proof fn law_turns_round_trip(d: CompassDirection)
    ensures
        CompassDirection::from_turns(d.spec_turns() as int) == d,
        d.spec_turns() < 8,
        CompassDirection::spec_all()[d.spec_turns() as int] == d,
        CompassDirection::spec_all().len() == 8,
{
}

/// Different directions take different numbers of turns from north, and have different flag
/// bits.
pub proof fn lemma_turns_injective(a: CompassDirection, b: CompassDirection)
    ensures
        (a.spec_turns() == b.spec_turns()) <==> (a == b),
        (a.spec_bit() == b.spec_bit()) <==> (a == b),
{
}

/// The bit set of a flag byte holds a direction exactly when that direction's bit is set.
pub open spec fn byte_has(bits: u8, d: CompassDirection) -> bool {
    bits & d.spec_bit() != 0
}

/// Facts about setting and clearing single direction bits in a byte of flags.
proof fn lemma_flag_bits(b: u8, d: CompassDirection, e: CompassDirection)
    ensures
        byte_has(b | d.spec_bit(), e) <==> (byte_has(b, e) || d == e),
        byte_has(b & !d.spec_bit(), e) <==> (byte_has(b, e) && d != e),
        !byte_has(0, e),
{
    let m = d.spec_bit();
    let o = e.spec_bit();
    assert((b | m) & o != 0 <==> (b & o != 0 || m & o != 0)) by (bit_vector);
    assert((b & !m) & o != 0 <==> (b & o != 0 && m & o == 0)) by (bit_vector)
        requires
            o == 1 || o == 2 || o == 4 || o == 8 || o == 16 || o == 32 || o == 64 || o == 128,
    ;
    assert(0u8 & o == 0) by (bit_vector);
    assert(m & o != 0 <==> d == e) by {
        assert(1u8 & 2 == 0 && 1u8 & 4 == 0 && 1u8 & 8 == 0 && 1u8 & 16 == 0 && 1u8 & 32 == 0
            && 1u8 & 64 == 0 && 1u8 & 128 == 0 && 2u8 & 4 == 0 && 2u8 & 8 == 0 && 2u8 & 16 == 0
            && 2u8 & 32 == 0 && 2u8 & 64 == 0 && 2u8 & 128 == 0 && 4u8 & 8 == 0 && 4u8 & 16 == 0
            && 4u8 & 32 == 0 && 4u8 & 64 == 0 && 4u8 & 128 == 0 && 8u8 & 16 == 0 && 8u8 & 32 == 0
            && 8u8 & 64 == 0 && 8u8 & 128 == 0 && 16u8 & 32 == 0 && 16u8 & 64 == 0
            && 16u8 & 128 == 0 && 32u8 & 64 == 0 && 32u8 & 128 == 0 && 64u8 & 128 == 0)
            by (bit_vector);
        assert(1u8 & 1 != 0 && 2u8 & 2 != 0 && 4u8 & 4 != 0 && 8u8 & 8 != 0 && 16u8 & 16 != 0
            && 32u8 & 32 != 0 && 64u8 & 64 != 0 && 128u8 & 128 != 0) by (bit_vector);
        assert(m & o == o & m) by (bit_vector);
    }
}

/// A set of completed [`CompassDirection`]s, stored as one bit per direction.
#[derive(Clone, Copy, Debug, PartialEq, Eq, Hash, Structural)]
pub struct CompassDirectionFlags(pub u8);

impl View for CompassDirectionFlags {
    type V = Set<CompassDirection>;

    open spec fn view(&self) -> Set<CompassDirection> {
        Set::new(|d: CompassDirection| byte_has(self.0, d))
    }
}

impl CompassDirectionFlags {
    /// The raw byte of flags.
    pub open spec fn spec_bits(self) -> u8 {
        self.0
    }

    /// The set of no directions.
    pub fn empty() -> (r: Self)
        ensures
            r@ == Set::<CompassDirection>::empty(),
            r.spec_bits() == 0,
    {
        proof {
            assert forall|e: CompassDirection| !byte_has(0, e) by {
                lemma_flag_bits(0, e, e);
            }
        }
        let r = CompassDirectionFlags(0);
        assert(r@ =~= Set::<CompassDirection>::empty());
        r
    }

    /// The raw byte of flags.
    pub fn bits(&self) -> (r: u8)
        ensures
            r == self.spec_bits(),
    {
        self.0
    }

    /// Build the flags from a raw byte; every bit stands for a direction, so nothing is lost.
    pub fn from_bits_retain(bits: u8) -> (r: Self)
        ensures
            r.spec_bits() == bits,
    {
        CompassDirectionFlags(bits)
    }

    /// Is this direction in the set?
    pub fn contains_direction(&self, d: CompassDirection) -> (r: bool)
        ensures
            r == self@.contains(d),
    {
        self.0 & d.bit() != 0
    }

    /// The flags with a direction added.
    pub open spec fn spec_insert(self, d: CompassDirection) -> Self {
        CompassDirectionFlags(self.0 | d.spec_bit())
    }

    /// The flags with a direction taken out.
    pub open spec fn spec_remove(self, d: CompassDirection) -> Self {
        CompassDirectionFlags(self.0 & !d.spec_bit())
    }

    /// Adding a direction to the flags adds it to the set they stand for, and taking one out
    /// takes it out of the set.
    pub proof fn lemma_insert_remove(self, d: CompassDirection)
        ensures
            self.spec_insert(d)@ == self@.insert(d),
            self.spec_remove(d)@ == self@.remove(d),
    {
        assert forall|e: CompassDirection| #[trigger] self.spec_insert(d)@.contains(e) == self@.insert(d).contains(e) by {
            lemma_flag_bits(self.0, d, e);
        }
        assert forall|e: CompassDirection| #[trigger] self.spec_remove(d)@.contains(e) == self@.remove(d).contains(e) by {
            lemma_flag_bits(self.0, d, e);
        }
        assert(self.spec_insert(d)@ =~= self@.insert(d));
        assert(self.spec_remove(d)@ =~= self@.remove(d));
    }

    /// Add a direction to the set.
    pub fn insert(&mut self, d: CompassDirection)
        ensures
            *final(self) == old(self).spec_insert(d),
            final(self)@ == old(self)@.insert(d),
    {
        let ghost before = *self;
        self.0 = self.0 | d.bit();
        proof {
            assert forall|e: CompassDirection| #[trigger] self@.contains(e) == before@.insert(d).contains(e) by {
                lemma_flag_bits(before.0, d, e);
            }
            assert(self@ =~= before@.insert(d));
        }
    }

    /// Remove a direction from the set.
    pub fn remove(&mut self, d: CompassDirection)
        ensures
            *final(self) == old(self).spec_remove(d),
            final(self)@ == old(self)@.remove(d),
    {
        let ghost before = *self;
        self.0 = self.0 & !d.bit();
        proof {
            assert forall|e: CompassDirection| #[trigger] self@.contains(e) == before@.remove(d).contains(e) by {
                lemma_flag_bits(before.0, d, e);
            }
            assert(self@ =~= before@.remove(d));
        }
    }

    /// The directions that must all be scanned before scanning can finish.
    pub open spec fn required_sides() -> Set<CompassDirection> {
        set![
            CompassDirection::North,
            CompassDirection::East,
            CompassDirection::South,
            CompassDirection::West,
        ]
    }

    /// Having done these directions, are we ready to finish scanning? That is the case once
    /// north, east, south and west have all been done.
    pub fn is_ready_to_finish(&self) -> (r: bool)
        ensures
            r == Self::required_sides().subset_of(self@),
    {
        let r = self.0 & 0b0101_0101 == 0b0101_0101;
        let b = self.0;
        proof {
            assert((b & 0b0101_0101 == 0b0101_0101) <==> (b & 1 != 0 && b & 4 != 0 && b & 16 != 0
                && b & 64 != 0)) by (bit_vector);
            assert(self@.contains(CompassDirection::North) == (b & 1 != 0));
            assert(self@.contains(CompassDirection::East) == (b & 4 != 0));
            assert(self@.contains(CompassDirection::South) == (b & 16 != 0));
            assert(self@.contains(CompassDirection::West) == (b & 64 != 0));
        }
        r
    }
}

impl From<CompassDirection> for CompassDirectionFlags {
    fn from(value: CompassDirection) -> (r: Self) {
        CompassDirectionFlags(value.bit())
    }
}

impl vstd::std_specs::convert::FromSpecImpl<CompassDirection> for CompassDirectionFlags {
    open spec fn obeys_from_spec() -> bool {
        true
    }

    open spec fn from_spec(v: CompassDirection) -> Self {
        CompassDirectionFlags(v.spec_bit())
    }
}

/// The flags made from one direction hold exactly that direction.
pub proof fn law_flags_from_direction(d: CompassDirection)
    ensures
        CompassDirectionFlags(d.spec_bit())@ == set![d],
{
    assert forall|e: CompassDirection| byte_has(d.spec_bit(), e) == (d == e) by {
        lemma_flag_bits(0, d, e);
        assert(0u8 | d.spec_bit() == d.spec_bit()) by {
            let m = d.spec_bit();
            assert(0u8 | m == m) by (bit_vector);
        }
    }
    assert(CompassDirectionFlags(d.spec_bit())@ =~= set![d]);
}

/// A generic message from the server to a client.
#[derive(Clone, Copy, Debug, PartialEq, Eq, Structural)]
pub enum GenericServerToClientMsg {
    /// Accept an incoming connection request from the client.
    AcceptConnection,
    /// Reject an incoming connection request from the client.
    RejectConnection,
    /// Terminate the current connection.
    TerminateConnection,
    /// The server is ready to start.
    ServerReady,
    /// The server is not ready to start.
    ServerNotReady,
}

/// A message from the server to the camera client.
#[derive(Clone, Copy, Debug, PartialEq, Eq, Structural)]
pub enum ServerToCameraMsg {
    /// A generic message from the server to a client.
    Generic(GenericServerToClientMsg),
    /// Lock the exposure of the camera so that relative brightnesses stay comparable.
    LockExposure,
    /// Tell the client that the lights are ready and a photo should be taken.
    TakePhoto {
        /// The index of the light being photographed.
        light_idx: u32,
    },
}

/// Information about the camera.
#[derive(Clone, Copy, Debug, PartialEq, Eq)]
pub struct BasicCameraInfo {
    /// The total resolution of the camera as `(width, height)`.
    pub resolution: (u32, u32),
}

/// A message from the camera client to the server.
#[derive(Clone, Copy, Debug, PartialEq, Eq)]
pub enum CameraToServerMsg {
    /// Declare the type of this client. See the module documentation for details.
    DeclareClientType,
    /// Try to establish a connection with the server.
    EstablishConnection(BasicCameraInfo),
    /// Tell the server that a photo has been taken and send the position of the brightest pixel.
    PhotoTaken {
        /// The index of the light being photographed.
        light_idx: u32,
        /// The position of the brightest pixel in the image as `(x, y)` with (0, 0) in the top
        /// left.
        brightest_pixel_pos: (u32, u32),
        /// The brightness of the brightest pixel in the image. Uses the full `u8` range.
        pixel_brightness: u8,
    },
}

/// A message from the server to the controller client.
#[derive(Clone, Copy, Debug, PartialEq, Eq, Structural)]
pub enum ServerToControllerMsg {
    /// A generic message from the server to a client.
    Generic(GenericServerToClientMsg),
    /// The camera has finished taking photos and the tree should be rotated to the next angle.
    PhotoSequenceDone {
        /// The sides of the tree that we've successfully finished scanning.
        finished_sides: CompassDirectionFlags,
    },
    /// The photo sequence was cancelled.
    PhotoSequenceCancelled {
        /// The sides of the tree that we've successfully finished scanning.
        finished_sides: CompassDirectionFlags,
    },
    /// The progress that the server has made scanning the lights from the current direction.
    ProgressUpdate {
        /// The number of lights that have already been scanned.
        scanned: u16,
        /// The total number of lights to scan.
        total: u16,
    },
}

/// A message from the controller client to the server.
#[derive(Clone, Copy, Debug, PartialEq, Eq, Structural)]
pub enum ControllerToServerMsg {
    /// Declare the type of this client. See the module documentation for details.
    DeclareClientType,
    /// Try to establish a connection with the server.
    EstablishConnection,
    /// Everything is set up and ready for the camera to take photos.
    ReadyToTakePhotos {
        /// Which side of the tree is facing the camera?
        camera_alignment: CompassDirection,
        /// The time to pause between taking photos, in milliseconds.
        pause_time_ms: u16,
    },
    /// Tell the server to stop taking photos.
    CancelPhotoSequence,
    /// We're finished scanning the tree, and the server should process the photos to make a GIFT
    /// file.
    FinishScanning,
}

} // verus!
