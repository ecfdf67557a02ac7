//! Effects: what the lights show over time. This module provides the simple debug effects, the
//! [`EffectList`] of every usable effect, and the config of the virtual tree that runs them.

use crate::frame::{black, white, only_light, single_light_colours, uniform_colours, Driver, FrameType, FrameView, RGBTuple};
use vstd::prelude::*;

verus! {

/// One step of an effect: a frame to display, and how long to leave it before the next step.
#[derive(Debug)]
pub struct EffectStep {
    /// The frame to display.
    pub frame: FrameType,
    /// How long to pause after displaying the frame, in milliseconds.
    pub pause_ms: u64,
}

/// The frames of a list of steps, in order.
pub open spec fn step_frames(steps: Seq<EffectStep>) -> Seq<FrameView> {
    steps.map_values(|s: EffectStep| s.frame@)
}

/// Display the frames of the steps on the driver, in order, without pausing.
pub fn display_steps<D: Driver>(driver: &mut D, steps: Vec<EffectStep>)
    ensures
        final(driver).records_frames() == old(driver).records_frames(),
        final(driver).lights() == old(driver).lights(),
        old(driver).records_frames() ==> final(driver).displayed() == old(driver).displayed()
            + step_frames(steps@),
{
    let ghost start = driver.displayed();
    let ghost all = steps@;
    let mut steps = steps;
    let ghost mut i: int = 0;
    while steps.len() > 0
        invariant
            0 <= i <= all.len(),
            steps@ == all.subrange(i, all.len() as int),
            driver.records_frames() == old(driver).records_frames(),
            driver.lights() == old(driver).lights(),
            driver.records_frames() ==> driver.displayed() == start + step_frames(
                all.subrange(0, i),
            ),
        decreases steps@.len(),
    {
        let step = steps.remove(0);
        proof {
            assert(step == all[i]);
            assert(step_frames(all.subrange(0, i + 1)) =~= step_frames(all.subrange(0, i)).push(
                step.frame@,
            ));
        }
        driver.display_frame(step.frame);
        proof {
            i = i + 1;
        }
        assert(steps@ =~= all.subrange(i, all.len() as int));
    }
    assert(all.subrange(0, all.len() as int) =~= all);
}

/// The frames shown by [`DebugOneByOne`] on `n` lights: all off, then each light in turn lit
/// white on its own, with all lights off again after each.
pub open spec fn one_by_one_frames(n: nat) -> Seq<FrameView> {
    Seq::new(
        2 * n + 1,
        |k: int|
            if k % 2 == 0 {
                FrameView::Off
            } else {
                FrameView::RawData(only_light(n, (k - 1) / 2))
            },
    )
}

/// Light up each light individually, one-by-one.
#[derive(Clone, Copy, Debug, Default)]
pub struct DebugOneByOne;

impl DebugOneByOne {
    /// The steps of the effect on `count` lights: clear the lights, then light each light in turn
    /// for 800ms, with the lights cleared for 250ms after each.
    pub fn schedule(&self, count: usize) -> (r: Vec<EffectStep>)
        ensures
            step_frames(r@) == one_by_one_frames(count as nat),
            r@.len() == 2 * count + 1,
            r@[0].pause_ms == 0,
            forall|k: int|
                1 <= k < r@.len() ==> (#[trigger] r@[k]).pause_ms == (if k % 2 == 1 {
                    800u64
                } else {
                    250u64
                }),
    {
        let mut r: Vec<EffectStep> = Vec::new();
        r.push(EffectStep { frame: FrameType::Off, pause_ms: 0 });
        let mut i: usize = 0;
        while i < count
            invariant
                i <= count,
                r@.len() == 2 * i + 1,
                step_frames(r@) == one_by_one_frames(count as nat).subrange(0, 2 * i + 1),
                r@[0].pause_ms == 0,
                forall|k: int|
                    1 <= k < r@.len() ==> (#[trigger] r@[k]).pause_ms == (if k % 2 == 1 {
                        800u64
                    } else {
                        250u64
                    }),
            decreases count - i,
        {
            let data = single_light_colours(count, i);
            r.push(EffectStep { frame: FrameType::RawData(data), pause_ms: 800 });
            r.push(EffectStep { frame: FrameType::Off, pause_ms: 250 });
            proof {
                let all = one_by_one_frames(count as nat);
                assert(step_frames(r@) =~= all.subrange(0, 2 * (i + 1) + 1));
            }
            i = i + 1;
        }
        assert(one_by_one_frames(count as nat).subrange(0, 2 * count + 1) =~= one_by_one_frames(
            count as nat,
        ));
        r
    }

    /// Run the effect on the driver: display every frame of [`DebugOneByOne::schedule`] for the
    /// driver's number of lights, in order. The pauses between frames are left to the caller.
    pub fn run<D: Driver>(&mut self, driver: &mut D)
        ensures
            final(driver).records_frames() == old(driver).records_frames(),
            final(driver).lights() == old(driver).lights(),
            old(driver).records_frames() ==> final(driver).displayed() == old(driver).displayed()
                + one_by_one_frames(old(driver).lights()),
    {
        let count = driver.get_lights_count();
        let steps = self.schedule(count);
        display_steps(driver, steps);
    }
}

/// `2` to the power `k`: the value of the binary digit at position `k` (counting from the right,
/// starting at 0).
pub open spec fn place_value(k: nat) -> nat
    decreases k,
{
    if k == 0 {
        1
    } else {
        2 * place_value((k - 1) as nat)
    }
}

/// The number of binary digits needed to write `n` (with `0` written as `0`).
pub open spec fn binary_len(n: nat) -> nat
    decreases n,
{
    if n < 2 {
        1
    } else {
        1 + binary_len(n / 2)
    }
}

/// The binary digit of `n` at position `k`, counting from the right and starting at 0.
pub open spec fn binary_digit(n: nat, k: nat) -> nat {
    (n / place_value(k)) % 2
}

/// The colour that shows a binary digit: red for `0` and blue for `1`.
pub open spec fn digit_colour(d: nat) -> RGBTuple {
    if d == 0 {
        (255u8, 0u8, 0u8)
    } else {
        (0u8, 0u8, 255u8)
    }
}

/// The colours of `n` lights that show, for each light, the binary digit of its index at position
/// `k`.
pub open spec fn binary_digit_colours(n: nat, k: nat) -> Seq<RGBTuple> {
    Seq::new(n, |i: int| digit_colour(binary_digit(i as nat, k)))
}

/// The frames shown by [`DebugBinaryIndex`] on `n` lights: all off, then for each binary digit
/// position from the most significant one, each light showing its index's digit at that position,
/// with all lights off again after each. Every index is padded with zeros to the length of the
/// largest index, `n - 1`.
pub open spec fn binary_index_frames(n: nat) -> Seq<FrameView> {
    let len = binary_len((n - 1) as nat);
    Seq::new(
        2 * len + 1,
        |k: int|
            if k % 2 == 0 {
                FrameView::Off
            } else {
                FrameView::RawData(binary_digit_colours(n, (len - 1 - (k - 1) / 2) as nat))
            },
    )
}

/// Place values are positive, grow with the position, and the place value of the leading digit
/// of `n` is at most `n`.
pub proof fn lemma_place_values(n: nat, j: nat, k: nat)
    ensures
        place_value(k) >= 1,
        j <= k ==> place_value(j) <= place_value(k),
        n >= 1 ==> place_value((binary_len(n) - 1) as nat) <= n,
        binary_len(n) >= 1,
        place_value(k) > k,
    decreases n + k,
{
    if k > 0 {
        lemma_place_values(n, j, (k - 1) as nat);
    }
    if n >= 2 {
        lemma_place_values(n / 2, j, k);
        assert(binary_len(n) == 1 + binary_len(n / 2));
        assert(place_value((binary_len(n) - 1) as nat) == 2 * place_value(
            (binary_len(n / 2) - 1) as nat,
        ));
    }
}

/// The number of binary digits needed to write `n`.
fn binary_length(n: usize) -> (r: usize)
    ensures
        r == binary_len(n as nat),
{
    let mut m = n;
    let mut len: usize = 1;
    assert(place_value(0) == 1);
    assert(m * place_value(0) == m) by (nonlinear_arith)
        requires
            place_value(0) == 1,
    ;
    while m >= 2
        invariant
            len >= 1,
            m <= n,
            len - 1 + binary_len(m as nat) == binary_len(n as nat),
            m * place_value((len - 1) as nat) <= n,
        decreases m,
    {
        proof {
            lemma_place_values(m as nat, 0, 0);
            lemma_place_values(n as nat, 0, len as nat);
            assert(place_value(len as nat) == 2 * place_value((len - 1) as nat));
            assert((m / 2) * 2 <= m);
            assert((m / 2) * place_value(len as nat) == ((m / 2) * 2) * place_value((len - 1) as nat))
                by (nonlinear_arith)
                requires place_value(len as nat) == 2 * place_value((len - 1) as nat);
            assert(((m / 2) * 2) * place_value((len - 1) as nat) <= m * place_value((len - 1) as nat))
                by (nonlinear_arith)
                requires (m / 2) * 2 <= m;
            assert(2 * place_value((len - 1) as nat) <= m * place_value((len - 1) as nat))
                by (nonlinear_arith)
                requires m >= 2;
        }
        m = m / 2;
        len = len + 1;
    }
    len
}

/// The value of the binary digit at position `k`.
fn place_value_usize(k: usize) -> (r: usize)
    requires
        place_value(k as nat) <= usize::MAX,
    ensures
        r == place_value(k as nat),
{
    let mut r: usize = 1;
    let mut j: usize = 0;
    while j < k
        invariant
            j <= k,
            r == place_value(j as nat),
            place_value(k as nat) <= usize::MAX,
        decreases k - j,
    {
        proof {
            lemma_place_values(0, (j + 1) as nat, k as nat);
        }
        r = r * 2;
        j = j + 1;
    }
    r
}

/// The colours of `count` lights that show, for each light, the binary digit of its index at
/// position `k`: red for `0` and blue for `1`.
fn binary_digit_colours_vec(count: usize, k: usize) -> (r: Vec<RGBTuple>)
    requires
        count >= 1,
        k < binary_len((count - 1) as nat),
    ensures
        r@ == binary_digit_colours(count as nat, k as nat),
{
    proof {
        lemma_place_values((count - 1) as nat, k as nat, (binary_len((count - 1) as nat) - 1) as nat);
        lemma_place_values(0, 0, k as nat);
    }
    let pv = place_value_usize(k);
    let mut r: Vec<RGBTuple> = Vec::new();
    let mut i: usize = 0;
    while i < count
        invariant
            i <= count,
            pv == place_value(k as nat),
            pv >= 1,
            r@ == binary_digit_colours(i as nat, k as nat),
        decreases count - i,
    {
        if (i / pv) % 2 == 0 {
            r.push((255, 0, 0));
        } else {
            r.push((0, 0, 255));
        }
        i = i + 1;
        assert(r@ =~= binary_digit_colours(i as nat, k as nat));
    }
    r
}

/// Make each light flash its index in binary, using blue for 1 and red for 0.
#[derive(Clone, Copy, Debug, Default)]
pub struct DebugBinaryIndex;

impl DebugBinaryIndex {
    /// The steps of the effect on `count` lights: clear the lights, then show each binary digit of
    /// the indices in turn, from the most significant, for 800ms, with the lights cleared for
    /// 250ms after each. There must be at least one light.
    pub fn schedule(&self, count: usize) -> (r: Vec<EffectStep>)
        requires
            count >= 1,
        ensures
            step_frames(r@) == binary_index_frames(count as nat),
            r@.len() == 2 * binary_len((count - 1) as nat) + 1,
            r@[0].pause_ms == 0,
            forall|k: int|
                1 <= k < r@.len() ==> (#[trigger] r@[k]).pause_ms == (if k % 2 == 1 {
                    800u64
                } else {
                    250u64
                }),
    {
        let len = binary_length(count - 1);
        proof {
            lemma_place_values((count - 1) as nat, 0, 0);
        }
        let mut r: Vec<EffectStep> = Vec::new();
        r.push(EffectStep { frame: FrameType::Off, pause_ms: 0 });
        let mut i: usize = 0;
        let ghost all = binary_index_frames(count as nat);
        while i < len
            invariant
                i <= len,
                len == binary_len((count - 1) as nat),
                len >= 1,
                count >= 1,
                all == binary_index_frames(count as nat),
                r@.len() == 2 * i + 1,
                step_frames(r@) == all.subrange(0, 2 * i + 1),
                r@[0].pause_ms == 0,
                forall|k: int|
                    1 <= k < r@.len() ==> (#[trigger] r@[k]).pause_ms == (if k % 2 == 1 {
                        800u64
                    } else {
                        250u64
                    }),
            decreases len - i,
        {
            let data = binary_digit_colours_vec(count, len - 1 - i);
            r.push(EffectStep { frame: FrameType::RawData(data), pause_ms: 800 });
            r.push(EffectStep { frame: FrameType::Off, pause_ms: 250 });
            proof {
                assert(all[2 * i + 1] == FrameView::RawData(
                    binary_digit_colours(count as nat, (len - 1 - i) as nat),
                ));
                assert(step_frames(r@) =~= all.subrange(0, 2 * (i + 1) + 1));
            }
            i = i + 1;
        }
        assert(all.subrange(0, 2 * len + 1) =~= all);
        r
    }

    /// Run the effect on the driver: display every frame of [`DebugBinaryIndex::schedule`] for
    /// the driver's number of lights, in order. The pauses between frames are left to the caller.
    /// The driver must have at least one light.
    pub fn run<D: Driver>(&mut self, driver: &mut D)
        requires
            old(driver).lights() >= 1,
        ensures
            final(driver).records_frames() == old(driver).records_frames(),
            final(driver).lights() == old(driver).lights(),
            old(driver).records_frames() ==> final(driver).displayed() == old(driver).displayed()
                + binary_index_frames(old(driver).lights()),
    {
        let count = driver.get_lights_count();
        let steps = self.schedule(count);
        display_steps(driver, steps);
    }
}

/// The config of [`DebugOneByOne`], which has no options.
#[derive(Clone, Copy, Debug, Default, PartialEq, Eq, Structural)]
pub struct DebugOneByOneConfig;

/// The config of [`DebugBinaryIndex`], which has no options.
#[derive(Clone, Copy, Debug, Default, PartialEq, Eq, Structural)]
pub struct DebugBinaryIndexConfig;

/// The config of one of the effects in [`EffectList`].
#[derive(Clone, Copy, Debug, PartialEq, Eq, Structural)]
pub enum EffectConfig {
    /// The config of [`DebugOneByOne`].
    DebugOneByOne(DebugOneByOneConfig),
    /// The config of [`DebugBinaryIndex`].
    DebugBinaryIndex(DebugBinaryIndexConfig),
}

/// An enum to list all the usable effects. If an effect is not accessible via this enum, then it
/// should not be used.
#[derive(Clone, Copy, Debug, Eq, PartialEq, Structural)]
pub enum EffectList {
    /// See [`DebugOneByOne`].
    DebugOneByOne,
    /// See [`DebugBinaryIndex`].
    DebugBinaryIndex,
}

impl EffectList {
    /// The name of an effect: the name of its type.
    pub open spec fn spec_name(self) -> Seq<char> {
        match self {
            EffectList::DebugOneByOne => "DebugOneByOne"@,
            EffectList::DebugBinaryIndex => "DebugBinaryIndex"@,
        }
    }

    /// Return the name of the selected effect.
    pub fn name(&self) -> (r: &'static str)
        ensures
            r@ == self.spec_name(),
    {
        match *self {
            EffectList::DebugOneByOne => "DebugOneByOne",
            EffectList::DebugBinaryIndex => "DebugBinaryIndex",
        }
    }

    /// Return the (default) config for the given effect, which is the config of that same effect.
    pub fn config(&self) -> (r: EffectConfig)
        ensures
            (*self is DebugOneByOne) <==> (r is DebugOneByOne),
            (*self is DebugBinaryIndex) <==> (r is DebugBinaryIndex),
    {
        match self {
            EffectList::DebugOneByOne => EffectConfig::DebugOneByOne(DebugOneByOneConfig),
            EffectList::DebugBinaryIndex => EffectConfig::DebugBinaryIndex(DebugBinaryIndexConfig),
        }
    }

    /// Every effect in the list, in order.
    pub fn all() -> (r: Vec<EffectList>)
        ensures
            r@ == seq![EffectList::DebugOneByOne, EffectList::DebugBinaryIndex],
    {
        vec![EffectList::DebugOneByOne, EffectList::DebugBinaryIndex]
    }

    /// The steps of the selected effect on `count` lights, with its pauses: each lit frame is
    /// held for 800ms and each clearing of the lights after one for 250ms. There must be at least
    /// one light.
    pub fn schedule(&self, count: usize) -> (r: Vec<EffectStep>)
        requires
            count >= 1,
        ensures
            *self is DebugOneByOne ==> step_frames(r@) == one_by_one_frames(count as nat),
            *self is DebugBinaryIndex ==> step_frames(r@) == binary_index_frames(count as nat),
            r@.len() > 0,
            r@[0].pause_ms == 0,
            forall|k: int|
                1 <= k < r@.len() ==> (#[trigger] r@[k]).pause_ms == (if k % 2 == 1 {
                    800u64
                } else {
                    250u64
                }),
            held_as_debug_effect(r@),
    {
        let r = match self {
            EffectList::DebugOneByOne => DebugOneByOne.schedule(count),
            EffectList::DebugBinaryIndex => DebugBinaryIndex.schedule(count),
        };
        proof {
            law_debug_effect_timing(r@, count as nat, *self is DebugBinaryIndex);
        }
        r
    }
}

/// How the debug effects time their frames: the first frame (all lights off) is not held, every
/// frame that lights the tree is held for 800ms, and every later frame with the lights off for
/// 250ms.
pub open spec fn held_as_debug_effect(steps: Seq<EffectStep>) -> bool {
    &&& steps.len() > 0
    &&& steps[0].pause_ms == 0
    &&& forall|k: int|
        1 <= k < steps.len() ==> {
            &&& (#[trigger] steps[k]).frame@ is RawData ==> steps[k].pause_ms == 800
            &&& steps[k].frame@ is Off ==> steps[k].pause_ms == 250
        }
}

/// The steps of either debug effect, whose frames alternate between the lights off and a lit
/// frame, keep each lit frame for 800ms and each clearing of the lights for 250ms, with no pause
/// before the first lit frame.
pub proof fn law_debug_effect_timing(steps: Seq<EffectStep>, n: nat, binary: bool)
    requires
        n >= 1,
        step_frames(steps) == (if binary {
            binary_index_frames(n)
        } else {
            one_by_one_frames(n)
        }),
        steps.len() > 0,
        steps[0].pause_ms == 0,
        forall|k: int|
            1 <= k < steps.len() ==> (#[trigger] steps[k]).pause_ms == (if k % 2 == 1 {
                800u64
            } else {
                250u64
            }),
    ensures
        held_as_debug_effect(steps),
{
    assert forall|k: int| 1 <= k < steps.len() implies {
        &&& (#[trigger] steps[k]).frame@ is RawData ==> steps[k].pause_ms == 800
        &&& steps[k].frame@ is Off ==> steps[k].pause_ms == 250
    } by {
        let f = step_frames(steps);
        assert(f.len() == steps.len());
        assert(f[k] == steps[k].frame@);
        if binary {
            assert(f[k] == binary_index_frames(n)[k]);
        } else {
            assert(f[k] == one_by_one_frames(n)[k]);
        }
        if k % 2 == 1 {
            assert(steps[k].frame@ is RawData);
        } else {
            assert(steps[k].frame@ is Off);
        }
    }
}

/// In the frames of [`DebugOneByOne`], every light is lit in exactly one frame, on its own: the
/// frame for light `i` lights light `i` white and leaves every other light off, and every other
/// frame has all the lights off.
pub proof fn law_one_by_one_lights_each_light_alone(n: nat, i: int, j: int)
    requires
        0 <= i < n,
        0 <= j < n,
    ensures
        one_by_one_frames(n).len() == 2 * n + 1,
        one_by_one_frames(n)[2 * i + 1] matches FrameView::RawData(c) && c.len() == n && (c[j]
            == white() <==> j == i) && (j != i ==> c[j] == black()),
        forall|k: int|
            0 <= k < 2 * n + 1 && k % 2 == 0 ==> #[trigger] one_by_one_frames(n)[k]
                == FrameView::Off,
{
    assert((2 * i + 1) % 2 == 1);
    assert((2 * i + 1 - 1) / 2 == i);
}

/// Every number below `place_value(l)` is told apart from any other such number by one of its
/// lowest `l` binary digits.
proof fn lemma_digits_tell_apart(l: nat, i: nat, j: nat) -> (k: nat)
    requires
        i < place_value(l),
        j < place_value(l),
        i != j,
    ensures
        k < l,
        binary_digit(i, k) != binary_digit(j, k),
    decreases l,
{
    if l == 0 {
        assert(false);
        0
    } else if i % 2 != j % 2 {
        assert(place_value(0) == 1);
        assert(i / 1 == i && j / 1 == j);
        0
    } else {
        let pl = place_value((l - 1) as nat);
        assert(place_value(l) == 2 * pl);
        assert(i / 2 != j / 2);
        assert(i / 2 < pl);
        assert(j / 2 < pl);
        let k1 = lemma_digits_tell_apart((l - 1) as nat, i / 2, j / 2);
        let pk = place_value(k1);
        lemma_place_values(0, 0, k1);
        assert(place_value(k1 + 1) == 2 * pk);
        vstd::arithmetic::div_mod::lemma_div_denominator(i as int, 2, pk as int);
        vstd::arithmetic::div_mod::lemma_div_denominator(j as int, 2, pk as int);
        assert(binary_digit(i, k1 + 1) == binary_digit(i / 2, k1));
        assert(binary_digit(j, k1 + 1) == binary_digit(j / 2, k1));
        k1 + 1
    }
}

/// Every number is below the place value just past its leading binary digit.
proof fn lemma_below_next_place(m: nat)
    ensures
        m < place_value(binary_len(m)),
    decreases m,
{
    if m >= 2 {
        lemma_below_next_place(m / 2);
        assert(binary_len(m) == 1 + binary_len(m / 2));
        assert(place_value(binary_len(m)) == 2 * place_value(binary_len(m / 2)));
    } else {
        assert(place_value(1) == 2 * place_value(0));
    }
}

/// The colours of the lights in the lit frame number `m` (counting from 0) of
/// [`DebugBinaryIndex`] on `n` lights.
pub open spec fn binary_index_colours(n: nat, m: int) -> Seq<RGBTuple> {
    match binary_index_frames(n)[2 * m + 1] {
        FrameView::RawData(c) => c,
        FrameView::Off => Seq::empty(),
    }
}

/// [`DebugBinaryIndex`] lets every light be identified: any two different lights show different
/// colours in at least one of the effect's lit frames, since each shows the binary digits of its
/// own index.
pub proof fn law_binary_index_tells_lights_apart(n: nat, i: int, j: int)
    requires
        0 <= i < n,
        0 <= j < n,
        i != j,
    ensures
        exists|m: int|
            0 <= m < binary_len((n - 1) as nat) && (#[trigger] binary_index_colours(n, m))[i]
                != binary_index_colours(n, m)[j],
{
    let len = binary_len((n - 1) as nat);
    lemma_below_next_place((n - 1) as nat);
    lemma_place_values(0, (n - 1) as nat, len);
    let k = lemma_digits_tell_apart(len, i as nat, j as nat);
    let m = len - 1 - k;
    assert((2 * m + 1) % 2 == 1);
    assert((2 * m + 1 - 1) / 2 == m);
    assert(binary_index_frames(n)[2 * m + 1] == FrameView::RawData(
        binary_digit_colours(n, k),
    ));
    assert(binary_digit(i as nat, k) < 2 && binary_digit(j as nat, k) < 2);
    assert(binary_index_colours(n, m)[i] != binary_index_colours(n, m)[j]);
}

/// Different effects have different names.
pub proof fn law_effect_names_distinct(a: EffectList, b: EffectList)
    ensures
        a.spec_name() == b.spec_name() <==> a == b,
{
    reveal_strlit("DebugOneByOne");
    reveal_strlit("DebugBinaryIndex");
    if a != b {
        assert(a.spec_name().len() != b.spec_name().len());
    }
}

/// The config of the virtual tree.
#[derive(Clone, Copy, Debug, PartialEq, Eq, Structural)]
pub struct VirtualTreeConfig {
    /// The amount of time to pause between loops of the effect, in milliseconds.
    pub loop_pause_time: u64,
    /// The item in the effects enum that's currently being run.
    pub effect: Option<EffectList>,
}

impl VirtualTreeConfig {
    /// Create a default config for the virtual tree: a pause of 1500ms between loops and no effect.
    pub fn default() -> (r: Self)
        ensures
            r.loop_pause_time == 1500,
            r.effect is None,
    {
        VirtualTreeConfig { loop_pause_time: 1500, effect: None }
    }

    /// The name of the file that the config is stored in.
    pub open spec fn spec_config_filename() -> Seq<char> {
        "config/drivers/virtual_tree.ron"@
    }

    /// Return the filename to store the config in.
    pub fn config_filename() -> (r: &'static str)
        ensures
            r@ == Self::spec_config_filename(),
    {
        "config/drivers/virtual_tree.ron"
    }

    /// Choose the effect to run (or none). The effect must be restarted when the choice is "no
    /// effect" or an effect other than the current one; choosing the current effect again changes
    /// nothing.
    pub fn select_effect(&mut self, choice: Option<EffectList>) -> (restart: bool)
        ensures
            final(self).effect == choice,
            final(self).loop_pause_time == old(self).loop_pause_time,
            restart == (choice is None || choice != old(self).effect),
    {
        let restart = match choice {
            None => true,
            Some(e) => match self.effect {
                Some(current) => e != current,
                None => true,
            },
        };
        self.effect = choice;
        restart
    }

    /// The config of the effect that is selected, if any.
    pub fn effect_config(&self) -> (r: Option<EffectConfig>)
        ensures
            self.effect is None <==> r is None,
            self.effect matches Some(e) ==> r matches Some(c) && ((e is DebugOneByOne) <==> (
            c is DebugOneByOne)),
    {
        match self.effect {
            Some(e) => Some(e.config()),
            None => None,
        }
    }

    /// One round of the virtual tree's effect loop: the effect to run, if one is selected, and
    /// the pause afterwards, in milliseconds: the configured loop pause after an effect, and one
    /// second when there is no effect. The lights are turned off after each round.
    pub fn loop_round(&self) -> (r: (Option<EffectList>, u64))
        ensures
            r.0 == self.effect,
            self.effect is Some ==> r.1 == self.loop_pause_time,
            self.effect is None ==> r.1 == 1000,
    {
        match self.effect {
            Some(e) => (Some(e), self.loop_pause_time),
            None => (None, 1000),
        }
    }
}

} // verus!
