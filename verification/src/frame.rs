//! Frames of colour data for the lights, and the [`Driver`] trait that displays them.

use vstd::prelude::*;

verus! {

/// An RGB colour.
pub type RGBTuple = (u8, u8, u8);

/// The colour of a light that is off.
pub open spec fn black() -> RGBTuple {
    (0u8, 0u8, 0u8)
}

/// The colour of a light at full brightness.
pub open spec fn white() -> RGBTuple {
    (255u8, 255u8, 255u8)
}

/// A type of frame data.
#[derive(Clone, Debug, PartialEq)]
pub enum FrameType {
    /// A frame indicating that all the lights are off.
    Off,
    /// The colour for each light on the chain.
    ///
    /// The driver is expected to handle the cases where the Vec is too long or too short and
    /// doesn't correspond one-to-one to the lights, but this behaviour is specific to individual
    /// drivers and should not be relied on.
    RawData(Vec<RGBTuple>),
}

/// The mathematical content of a [`FrameType`].
pub enum FrameView {
    /// All the lights are off.
    Off,
    /// The colour for each light on the chain.
    RawData(Seq<RGBTuple>),
}

impl View for FrameType {
    type V = FrameView;

    open spec fn view(&self) -> FrameView {
        match self {
            FrameType::Off => FrameView::Off,
            FrameType::RawData(v) => FrameView::RawData(v@),
        }
    }
}

/// `n` lights, all at full brightness.
pub open spec fn all_lights(n: nat, colour: RGBTuple) -> Seq<RGBTuple> {
    Seq::new(n, |_i: int| colour)
}

/// `n` lights, where only the light at `idx` is lit (white) and every other light is off.
pub open spec fn only_light(n: nat, idx: int) -> Seq<RGBTuple> {
    Seq::new(n, |i: int| if i == idx { white() } else { black() })
}

/// Make the colour data for `n` lights that all have the same colour.
pub fn uniform_colours(n: usize, colour: RGBTuple) -> (r: Vec<RGBTuple>)
    ensures
        r@ == all_lights(n as nat, colour),
{
    let mut r: Vec<RGBTuple> = Vec::new();
    let mut i: usize = 0;
    while i < n
        invariant
            i <= n,
            r@ == all_lights(i as nat, colour),
        decreases n - i,
    {
        r.push(colour);
        i = i + 1;
        assert(r@ =~= all_lights(i as nat, colour));
    }
    r
}

/// Make the colour data for `n` lights where only the light at `idx` is lit.
pub fn single_light_colours(n: usize, idx: usize) -> (r: Vec<RGBTuple>)
    ensures
        r@ == only_light(n as nat, idx as int),
{
    let mut r: Vec<RGBTuple> = Vec::new();
    let mut i: usize = 0;
    while i < n
        invariant
            i <= n,
            r@ == only_light(i as nat, idx as int),
        decreases n - i,
    {
        if i == idx {
            r.push((255, 255, 255));
        } else {
            r.push((0, 0, 0));
        }
        i = i + 1;
        assert(r@ =~= only_light(i as nat, idx as int));
    }
    r
}

/// The trait implemented by all drivers.
///
/// A driver may keep a record of the frames it has displayed. Where it does
/// (`records_frames`), `displayed` is that record, so that what an effect sends to the driver can
/// be stated.
pub trait Driver {
    /// Does this driver keep a record of the frames it displays?
    spec fn records_frames(&self) -> bool;

    /// The frames displayed so far, where the driver records them.
    spec fn displayed(&self) -> Seq<FrameView>;

    /// The maximum brightness that each frame displayed so far was asked for, as a percentage,
    /// where the driver records frames.
    spec fn brightnesses(&self) -> Seq<u8>;

    /// The number of lights on the chain.
    spec fn lights(&self) -> nat;

    /// Display the given frame using this driver, at full brightness (100%).
    fn display_frame(&mut self, frame: FrameType)
        ensures
            final(self).records_frames() == old(self).records_frames(),
            final(self).lights() == old(self).lights(),
            old(self).records_frames() ==> final(self).displayed() == old(self).displayed().push(
                frame@,
            ),
            old(self).records_frames() ==> final(self).brightnesses() == old(
                self,
            ).brightnesses().push(100),
    ;

    /// Display the given frame using this driver, with the given maximum brightness: a
    /// percentage, in `0..=100`.
    fn display_frame_with_brightness(&mut self, frame: FrameType, max_brightness: u8)
        requires
            max_brightness <= 100,
        ensures
            final(self).records_frames() == old(self).records_frames(),
            final(self).lights() == old(self).lights(),
            old(self).records_frames() ==> final(self).displayed() == old(self).displayed().push(
                frame@,
            ),
            old(self).records_frames() ==> final(self).brightnesses() == old(
                self,
            ).brightnesses().push(max_brightness),
    ;

    /// Return the number of lights on the chain.
    fn get_lights_count(&self) -> (n: usize)
        ensures
            n == self.lights(),
    ;

    /// Clear the display by rendering [`FrameType::Off`].
    fn clear(&mut self)
        ensures
            final(self).records_frames() == old(self).records_frames(),
            final(self).lights() == old(self).lights(),
            old(self).records_frames() ==> final(self).displayed() == old(self).displayed().push(
                FrameView::Off,
            ),
            old(self).records_frames() ==> final(self).brightnesses() == old(
                self,
            ).brightnesses().push(100),
    {
        self.display_frame(FrameType::Off);
    }
}

/// A simple debug driver that displays nothing and keeps no record; it only knows the number of
/// lights.
pub struct DebugDriver {
    /// The number of lights on the chain.
    pub lights_num: usize,
}

impl Driver for DebugDriver {
    open spec fn records_frames(&self) -> bool {
        false
    }

    open spec fn displayed(&self) -> Seq<FrameView> {
        Seq::empty()
    }

    open spec fn brightnesses(&self) -> Seq<u8> {
        Seq::empty()
    }

    open spec fn lights(&self) -> nat {
        self.lights_num as nat
    }

    fn display_frame(&mut self, frame: FrameType) {
    }

    fn display_frame_with_brightness(&mut self, frame: FrameType, max_brightness: u8) {
    }

    fn get_lights_count(&self) -> (n: usize) {
        self.lights_num
    }
}

/// A test driver that stores all the frames it receives so that they can be checked.
pub struct TestDriver {
    /// The number of lights on the chain.
    pub lights_num: usize,
    /// Every frame displayed so far, in order.
    pub data: Vec<FrameType>,
    /// The maximum brightness that each frame was asked for, in the same order.
    pub brightness: Vec<u8>,
}

impl TestDriver {
    /// A test driver for the given number of lights that has displayed nothing yet.
    pub fn new(lights_num: usize) -> (r: Self)
        ensures
            r.lights_num == lights_num,
            r.data@.len() == 0,
            r.records_frames(),
            r.displayed() == Seq::<FrameView>::empty(),
            r.brightnesses() == Seq::<u8>::empty(),
            r.lights() == lights_num,
    {
        let r = TestDriver { lights_num, data: Vec::new(), brightness: Vec::new() };
        assert(r.displayed() =~= Seq::<FrameView>::empty());
        r
    }
}

impl Driver for TestDriver {
    open spec fn records_frames(&self) -> bool {
        true
    }

    open spec fn displayed(&self) -> Seq<FrameView> {
        self.data@.map_values(|f: FrameType| f@)
    }

    open spec fn brightnesses(&self) -> Seq<u8> {
        self.brightness@
    }

    open spec fn lights(&self) -> nat {
        self.lights_num as nat
    }

    fn display_frame(&mut self, frame: FrameType) {
        let ghost f = frame@;
        self.data.push(frame);
        self.brightness.push(100);
        assert(self.displayed() =~= old(self).displayed().push(f));
    }

    fn display_frame_with_brightness(&mut self, frame: FrameType, max_brightness: u8) {
        let ghost f = frame@;
        self.data.push(frame);
        self.brightness.push(max_brightness);
        assert(self.displayed() =~= old(self).displayed().push(f));
    }

    fn get_lights_count(&self) -> (n: usize) {
        self.lights_num
    }
}

} // verus!
