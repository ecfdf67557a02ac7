//! The logic of the driver for WS2811 RGB LEDs on a Raspberry Pi: the words that are sent down
//! the chain of LEDs for each frame. Sending them is the job of the LED controller.

use crate::frame::{black, Driver, FrameType, FrameView, RGBTuple};
use vstd::prelude::*;

verus! {

/// The word that one LED is sent: blue, green, red, and a fourth byte that WS2811 LEDs do not
/// use, which is zero.
pub type LedWord = (u8, u8, u8, u8);

/// The word for an RGB colour.
pub open spec fn led_word(c: RGBTuple) -> LedWord {
    (c.2, c.1, c.0, 0u8)
}

/// The words of the LEDs after the colours are written: the first LEDs take the colours in
/// order; LEDs beyond the colours keep their words, and colours beyond the LEDs are dropped.
pub open spec fn written_words(old_words: Seq<LedWord>, colours: Seq<RGBTuple>) -> Seq<LedWord> {
    Seq::new(
        old_words.len(),
        |i: int| if i < colours.len() { led_word(colours[i]) } else { old_words[i] },
    )
}

/// The colours that a frame stands for on `n` lights.
pub open spec fn frame_colours(frame: FrameView, n: nat) -> Seq<RGBTuple> {
    match frame {
        FrameView::Off => Seq::new(n, |_i: int| black()),
        FrameView::RawData(data) => data,
    }
}

/// A driver that can run WS2811 RGB LEDs: it holds the word of each LED on the chain.
pub struct Ws2811Driver {
    /// The word of each LED, in the order of the chain.
    leds: Vec<LedWord>,
}

impl View for Ws2811Driver {
    type V = Seq<LedWord>;

    closed spec fn view(&self) -> Seq<LedWord> {
        self.leds@
    }
}

impl Ws2811Driver {
    /// A driver for a chain of `lights_count` LEDs, all off.
    pub fn new(lights_count: usize) -> (r: Self)
        ensures
            r@ == Seq::new(lights_count as nat, |_i: int| (0u8, 0u8, 0u8, 0u8)),
    {
        let mut leds: Vec<LedWord> = Vec::new();
        let mut i: usize = 0;
        while i < lights_count
            invariant
                i <= lights_count,
                leds@ == Seq::new(i as nat, |_i: int| (0u8, 0u8, 0u8, 0u8)),
            decreases lights_count - i,
        {
            leds.push((0, 0, 0, 0));
            i = i + 1;
            assert(leds@ =~= Seq::new(i as nat, |_i: int| (0u8, 0u8, 0u8, 0u8)));
        }
        Ws2811Driver { leds }
    }

    /// The words of the LEDs, to be sent down the chain.
    pub fn leds(&self) -> (r: &Vec<LedWord>)
        ensures
            r@ == self@,
    {
        &self.leds
    }

    /// Write the given RGB colours to the LEDs, in order, as long as there are LEDs for them.
    pub fn display_colours(&mut self, colours: &[RGBTuple])
        ensures
            final(self)@ == written_words(old(self)@, colours@),
    {
        let mut idx: usize = 0;
        while idx < colours.len() && idx < self.leds.len()
            invariant
                self.leds@.len() == old(self)@.len(),
                idx <= colours@.len(),
                forall|i: int|
                    0 <= i < self.leds@.len() ==> #[trigger] self.leds@[i] == (if i < idx {
                        led_word(colours@[i])
                    } else {
                        old(self)@[i]
                    }),
            decreases colours.len() - idx,
        {
            let (r, g, b) = colours[idx];
            self.leds.set(idx, (b, g, r, 0));
            idx = idx + 1;
        }
        assert(self.leds@ =~= written_words(old(self)@, colours@));
    }
}

impl Driver for Ws2811Driver {
    open spec fn records_frames(&self) -> bool {
        false
    }

    open spec fn displayed(&self) -> Seq<FrameView> {
        Seq::empty()
    }

    open spec fn brightnesses(&self) -> Seq<u8> {
        Seq::empty()
    }

    open spec fn lights(&self) -> nat {
        self@.len()
    }

    /// Write the colours of a frame to the LEDs: all of them off for [`FrameType::Off`].
    fn display_frame(&mut self, frame: FrameType)
        ensures
            final(self)@ == written_words(old(self)@, frame_colours(frame@, old(self)@.len())),
    {
        match frame {
            FrameType::Off => {
                let n = self.leds.len();
                let off = crate::frame::uniform_colours(n, (0, 0, 0));
                self.display_colours(off.as_slice());
            },
            FrameType::RawData(data) => {
                self.display_colours(data.as_slice());
            },
        }
    }

    /// Write the colours of a frame to the LEDs as [`Ws2811Driver::display_frame`] does: the
    /// words of WS2811 LEDs do not depend on the brightness asked for.
    fn display_frame_with_brightness(&mut self, frame: FrameType, max_brightness: u8)
        ensures
            final(self)@ == written_words(old(self)@, frame_colours(frame@, old(self)@.len())),
    {
        self.display_frame(frame);
    }

    fn get_lights_count(&self) -> (n: usize) {
        self.leds.len()
    }
}

/// Each LED that a frame reaches is sent its colour with blue first, then green, then red, and a
/// zero byte, so the colour can be read back from its word; a frame with the lights off sends
/// every LED the zero word; LEDs beyond the frame's colours keep their words.
pub proof fn law_words_carry_colours(old_words: Seq<LedWord>, colours: Seq<RGBTuple>, i: int)
    requires
        0 <= i < old_words.len(),
    ensures
        written_words(old_words, colours).len() == old_words.len(),
        i < colours.len() ==> ({
            let w = written_words(old_words, colours)[i];
            (w.2, w.1, w.0) == colours[i] && w.3 == 0
        }),
        i >= colours.len() ==> written_words(old_words, colours)[i] == old_words[i],
        written_words(old_words, frame_colours(FrameView::Off, old_words.len()))[i] == (
            0u8,
            0u8,
            0u8,
            0u8,
        ),
{
}

} // verus!
