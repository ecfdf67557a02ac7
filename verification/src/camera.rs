//! The image logic of a camera client: rotating the camera's greyscale frames, and finding the
//! brightest pixel of a frame, which is where the lit light is.

use vstd::prelude::*;

verus! {

/// A rotation of a number of degrees clockwise.
#[derive(Clone, Copy, Debug, PartialEq, Eq, Structural)]
pub enum Rotation {
    /// The image is exactly as it came from the camera.
    Original,
    /// The image is rotated 90 degrees clockwise.
    Rotate90,
    /// The image is rotated 180 degrees.
    Rotate180,
    /// The image is rotated 270 degrees clockwise (90 degrees anti-clockwise).
    Rotate270,
}

impl Rotation {
    /// The number of quarter turns clockwise of this rotation.
    pub open spec fn quarter_turns(self) -> int {
        match self {
            Rotation::Original => 0,
            Rotation::Rotate90 => 1,
            Rotation::Rotate180 => 2,
            Rotation::Rotate270 => 3,
        }
    }

    /// Rotate by 90 degrees clockwise.
    pub fn next_clockwise(self) -> (r: Self)
        ensures
            r.quarter_turns() == (self.quarter_turns() + 1) % 4,
    {
        match self {
            Rotation::Original => Rotation::Rotate90,
            Rotation::Rotate90 => Rotation::Rotate180,
            Rotation::Rotate180 => Rotation::Rotate270,
            Rotation::Rotate270 => Rotation::Original,
        }
    }

    /// Rotate by 90 degrees anti-clockwise.
    pub fn next_anticlockwise(self) -> (r: Self)
        ensures
            r.quarter_turns() == (self.quarter_turns() + 3) % 4,
    {
        match self {
            Rotation::Original => Rotation::Rotate270,
            Rotation::Rotate90 => Rotation::Original,
            Rotation::Rotate180 => Rotation::Rotate90,
            Rotation::Rotate270 => Rotation::Rotate180,
        }
    }
}

/// A rotation is fixed by its number of quarter turns.
pub proof fn lemma_quarter_turns_injective(a: Rotation, b: Rotation)
    ensures
        a.quarter_turns() == b.quarter_turns() <==> a == b,
        0 <= a.quarter_turns() < 4,
{
}

/// Turning clockwise and then anti-clockwise (or the other way round) gives back the rotation
/// we started from, and four clockwise turns make a full circle.
pub proof fn law_rotation_turns_undo(r: Rotation, c: Rotation, a: Rotation, c2: Rotation, c3: Rotation, c4: Rotation)
    requires
        c.quarter_turns() == (r.quarter_turns() + 1) % 4,
        a.quarter_turns() == (r.quarter_turns() + 3) % 4,
        c2.quarter_turns() == (c.quarter_turns() + 1) % 4,
        c3.quarter_turns() == (c2.quarter_turns() + 1) % 4,
        c4.quarter_turns() == (c3.quarter_turns() + 1) % 4,
    ensures
        (a.quarter_turns() + 1) % 4 == r.quarter_turns(),
        (c.quarter_turns() + 3) % 4 == r.quarter_turns(),
        c4 == r,
{
    lemma_quarter_turns_injective(c4, r);
}

/// A greyscale image, stored row by row from the top left, one byte per pixel.
#[derive(Clone, Debug, PartialEq, Eq)]
pub struct GrayFrame {
    /// The width of the image in pixels.
    pub width: u32,
    /// The height of the image in pixels.
    pub height: u32,
    /// The brightness of each pixel, row by row.
    pub pixels: Vec<u8>,
}

/// Where the pixel at `(x, y)` sits in the row-by-row list of an image of the given width.
pub open spec fn pixel_index(width: int, x: int, y: int) -> int {
    y * width + x
}

/// The index of a pixel inside an image lies inside the image's list of pixels.
proof fn lemma_pixel_index_in_range(width: int, height: int, x: int, y: int)
    requires
        0 <= x < width,
        0 <= y < height,
    ensures
        0 <= pixel_index(width, x, y) < width * height,
        pixel_index(width, x, y) + 1 == pixel_index(width, x + 1, y),
        pixel_index(width, width, y) == pixel_index(width, 0, y + 1),
{
    assert(0 <= y * width + x) by (nonlinear_arith)
        requires
            0 <= x < width,
            0 <= y,
    ;
    assert(y * width + x < width * height) by (nonlinear_arith)
        requires
            0 <= x < width,
            0 <= y < height,
    ;
    assert((y + 1) * width == y * width + width) by (nonlinear_arith);
}

impl GrayFrame {
    /// The list of pixels has exactly one byte per pixel.
    pub open spec fn wf(&self) -> bool {
        self.pixels@.len() == self.width * self.height
    }

    /// The brightness of the pixel at `(x, y)`.
    pub open spec fn px(&self, x: int, y: int) -> u8 {
        self.pixels@[pixel_index(self.width as int, x, y)]
    }

    /// An image of the given size with the given pixels, if there is exactly one pixel per byte.
    pub fn from_raw(width: u32, height: u32, pixels: Vec<u8>) -> (r: Option<Self>)
        ensures
            r is Some <==> pixels@.len() == width * height,
            r matches Some(f) ==> f.width == width && f.height == height && f.pixels@ == pixels@
                && f.wf(),
    {
        assert((width as u64) * (height as u64) <= u64::MAX) by (nonlinear_arith)
            requires
                width <= u32::MAX,
                height <= u32::MAX,
        ;
        if (pixels.len() as u64) == (width as u64) * (height as u64) {
            Some(GrayFrame { width, height, pixels })
        } else {
            None
        }
    }
}

/// Build the image of size `out_w` by `out_h` whose pixel at `(x, y)` is the pixel of `f` at
/// `src(x, y)`, for the source positions given by `spec_src`; `src` computes them.
fn remap(f: &GrayFrame, out_w: u32, out_h: u32, kind: Rotation) -> (r: GrayFrame)
    requires
        f.wf(),
        kind != Rotation::Original,
        kind == Rotation::Rotate180 ==> out_w == f.width && out_h == f.height,
        kind != Rotation::Rotate180 ==> out_w == f.height && out_h == f.width,
    ensures
        r.wf(),
        r.width == out_w,
        r.height == out_h,
        forall|x: int, y: int|
            0 <= x < out_w && 0 <= y < out_h ==> #[trigger] r.px(x, y) == f.px(
                source_x(kind, f.width as int, f.height as int, x, y),
                source_y(kind, f.width as int, f.height as int, x, y),
            ),
{
    let mut pixels: Vec<u8> = Vec::new();
    let mut y: u32 = 0;
    while y < out_h
        invariant
            f.wf(),
            kind != Rotation::Original,
            kind == Rotation::Rotate180 ==> out_w == f.width && out_h == f.height,
            kind != Rotation::Rotate180 ==> out_w == f.height && out_h == f.width,
            y <= out_h,
            pixels@.len() == y * out_w,
            forall|xx: int, yy: int|
                0 <= xx < out_w && 0 <= yy < y ==> #[trigger] pixels@[pixel_index(out_w as int, xx, yy)]
                    == f.px(
                    source_x(kind, f.width as int, f.height as int, xx, yy),
                    source_y(kind, f.width as int, f.height as int, xx, yy),
                ),
        decreases out_h - y,
    {
        let mut x: u32 = 0;
        while x < out_w
            invariant
                f.wf(),
                kind != Rotation::Original,
                kind == Rotation::Rotate180 ==> out_w == f.width && out_h == f.height,
                kind != Rotation::Rotate180 ==> out_w == f.height && out_h == f.width,
                y < out_h,
                x <= out_w,
                pixels@.len() == y * out_w + x,
                forall|xx: int, yy: int|
                    0 <= xx < out_w && 0 <= yy < y ==> #[trigger] pixels@[pixel_index(out_w as int, xx, yy)]
                        == f.px(
                        source_x(kind, f.width as int, f.height as int, xx, yy),
                        source_y(kind, f.width as int, f.height as int, xx, yy),
                    ),
                forall|xx: int|
                    0 <= xx < x ==> #[trigger] pixels@[pixel_index(out_w as int, xx, y as int)]
                        == f.px(
                        source_x(kind, f.width as int, f.height as int, xx, y as int),
                        source_y(kind, f.width as int, f.height as int, xx, y as int),
                    ),
            decreases out_w - x,
        {
            let (sx, sy) = match kind {
                Rotation::Rotate90 => (y, f.height - 1 - x),
                Rotation::Rotate180 => (f.width - 1 - x, f.height - 1 - y),
                _ => (f.width - 1 - y, x),
            };
            assert(sx == source_x(kind, f.width as int, f.height as int, x as int, y as int));
            assert(sy == source_y(kind, f.width as int, f.height as int, x as int, y as int));
            proof {
                lemma_pixel_index_in_range(f.width as int, f.height as int, sx as int, sy as int);
                lemma_pixel_index_in_range(out_w as int, out_h as int, x as int, y as int);
            }
            let n_pixels = f.pixels.len();
            assert((sy as int) * (f.width as int) + (sx as int) < n_pixels);
            assert((sy as int) * (f.width as int) <= (sy as int) * (f.width as int) + (sx as int));
            let idx = sy as usize * f.width as usize + sx as usize;
            let p = f.pixels[idx];
            let ghost before = pixels@;
            pixels.push(p);
            proof {
                assert forall|xx: int, yy: int|
                    0 <= xx < out_w && 0 <= yy < y implies #[trigger] pixels@[pixel_index(
                        out_w as int,
                        xx,
                        yy,
                    )] == before[pixel_index(out_w as int, xx, yy)] by {
                    lemma_pixel_index_in_range(out_w as int, y as int, xx, yy);
                    assert(out_w * y == y * out_w) by (nonlinear_arith);
                }
                assert(pixels@[pixel_index(out_w as int, x as int, y as int)] == p);
            }
            x = x + 1;
        }
        proof {
            assert(y * out_w + out_w == (y + 1) * out_w) by (nonlinear_arith);
        }
        y = y + 1;
    }
    proof {
        assert(out_h * out_w == out_w * out_h) by (nonlinear_arith);
    }
    GrayFrame { width: out_w, height: out_h, pixels }
}

/// The x coordinate in the original image of the pixel at `(x, y)` of the rotated image.
pub open spec fn source_x(kind: Rotation, w: int, h: int, x: int, y: int) -> int {
    match kind {
        Rotation::Original => x,
        Rotation::Rotate90 => y,
        Rotation::Rotate180 => w - 1 - x,
        Rotation::Rotate270 => w - 1 - y,
    }
}

/// The y coordinate in the original image of the pixel at `(x, y)` of the rotated image.
pub open spec fn source_y(kind: Rotation, w: int, h: int, x: int, y: int) -> int {
    match kind {
        Rotation::Original => y,
        Rotation::Rotate90 => h - 1 - x,
        Rotation::Rotate180 => h - 1 - y,
        Rotation::Rotate270 => x,
    }
}

/// `r` is `f` turned by the rotation: a quarter turn swaps the width and height, and each pixel
/// of `r` is the pixel of `f` that the rotation moves there.
pub open spec fn is_rotation_of(r: GrayFrame, f: GrayFrame, kind: Rotation) -> bool {
    &&& r.wf()
    &&& (kind == Rotation::Original || kind == Rotation::Rotate180) ==> r.width == f.width
        && r.height == f.height
    &&& (kind == Rotation::Rotate90 || kind == Rotation::Rotate270) ==> r.width == f.height
        && r.height == f.width
    &&& forall|x: int, y: int|
        0 <= x < r.width && 0 <= y < r.height ==> #[trigger] r.px(x, y) == f.px(
            source_x(kind, f.width as int, f.height as int, x, y),
            source_y(kind, f.width as int, f.height as int, x, y),
        )
}

/// Turn an image by the given rotation, as the camera's frames are turned before they are shown
/// and searched for the lit light.
pub fn rotate(f: GrayFrame, rotation: Rotation) -> (r: GrayFrame)
    requires
        f.wf(),
    ensures
        is_rotation_of(r, f, rotation),
        rotation == Rotation::Original ==> r == f,
{
    match rotation {
        Rotation::Original => f,
        Rotation::Rotate90 => remap(&f, f.height, f.width, rotation),
        Rotation::Rotate180 => remap(&f, f.width, f.height, rotation),
        Rotation::Rotate270 => remap(&f, f.height, f.width, rotation),
    }
}

/// Turning an image a quarter turn clockwise and then a quarter turn anti-clockwise gives back
/// the image, and so does turning it by a half turn twice.
pub proof fn law_rotations_undo(f: GrayFrame, a: GrayFrame, b: GrayFrame, c: GrayFrame, d: GrayFrame)
    requires
        f.wf(),
        is_rotation_of(a, f, Rotation::Rotate90),
        is_rotation_of(b, a, Rotation::Rotate270),
        is_rotation_of(c, f, Rotation::Rotate180),
        is_rotation_of(d, c, Rotation::Rotate180),
    ensures
        b.width == f.width && b.height == f.height && b.pixels@ == f.pixels@,
        d.width == f.width && d.height == f.height && d.pixels@ == f.pixels@,
{
    assert forall|i: int| 0 <= i < f.pixels@.len() implies b.pixels@[i] == f.pixels@[i]
        && d.pixels@[i] == f.pixels@[i] by {
        let w = f.width as int;
        let h = f.height as int;
        let x = i % w;
        let y = i / w;
        assert(0 <= i < w * h);
        assert(w > 0) by (nonlinear_arith)
            requires
                0 <= i < w * h,
                w >= 0,
                h >= 0,
        ;
        assert(i == y * w + x && 0 <= x < w) by (nonlinear_arith)
            requires
                w > 0,
                x == i % w,
                y == i / w,
                i >= 0,
        ;
        assert(0 <= y < h) by (nonlinear_arith)
            requires
                w > 0,
                y == i / w,
                0 <= i < w * h,
        ;
        assert(b.px(x, y) == a.px(f.height - 1 - y, x));
        assert(a.px(f.height - 1 - y, x) == f.px(x, y));
        assert(d.px(x, y) == c.px(w - 1 - x, f.height - 1 - y));
        assert(c.px(w - 1 - x, f.height - 1 - y) == f.px(x, y));
    }
    assert(b.pixels@ =~= f.pixels@);
    assert(d.pixels@ =~= f.pixels@);
}

/// `r` is the brightest pixel of the first `n` pixels (row by row) of an image of the given width:
/// its brightness is the largest among them, and where that brightness is not zero, `r` is the
/// first pixel with it. With no pixel brighter than zero, `r` is `((0, 0), 0)`.
pub open spec fn is_brightest(pixels: Seq<u8>, width: int, n: int, r: ((u32, u32), u8)) -> bool {
    let ((x, y), b) = r;
    &&& forall|i: int| 0 <= i < n ==> #[trigger] pixels[i] <= b
    &&& b > 0 ==> {
        &&& x < width
        &&& 0 <= pixel_index(width, x as int, y as int) < n
        &&& pixels[pixel_index(width, x as int, y as int)] == b
        &&& forall|i: int| 0 <= i < pixel_index(width, x as int, y as int) ==> #[trigger] pixels[i] < b
    }
    &&& b == 0 ==> x == 0 && y == 0
}

/// Get the position of the brightest pixel in the image and its brightness.
///
/// Returns a tuple `(x, y)`, where (0, 0) is the top left of the image, along with the
/// brightness. Of several equally bright pixels, the first one row by row is returned.
pub fn get_brightest_pixel(f: &GrayFrame) -> (r: ((u32, u32), u8))
    requires
        f.wf(),
    ensures
        is_brightest(f.pixels@, f.width as int, f.pixels@.len() as int, r),
        r.1 > 0 ==> r.0.0 < f.width && r.0.1 < f.height,
{
    let mut best: ((u32, u32), u8) = ((0, 0), 0);
    let w = f.width;
    let h = f.height;
    let mut y: u32 = 0;
    while y < h
        invariant
            f.wf(),
            w == f.width,
            h == f.height,
            y <= h,
            is_brightest(f.pixels@, w as int, y * w, best),
            best.1 > 0 ==> best.0.1 < y,
        decreases h - y,
    {
        let mut x: u32 = 0;
        while x < w
            invariant
                f.wf(),
                w == f.width,
                h == f.height,
                y < h,
                x <= w,
                is_brightest(f.pixels@, w as int, y * w + x, best),
                best.1 > 0 ==> best.0.1 <= y,
            decreases w - x,
        {
            proof {
                lemma_pixel_index_in_range(w as int, h as int, x as int, y as int);
            }
            let n_pixels = f.pixels.len();
            assert((y as int) * (w as int) + (x as int) < n_pixels);
            assert((y as int) * (w as int) <= (y as int) * (w as int) + (x as int));
            let idx = y as usize * w as usize + x as usize;
            let p = f.pixels[idx];
            if p > best.1 {
                best = ((x, y), p);
            }
            x = x + 1;
        }
        proof {
            assert(y * w + w == (y + 1) * w) by (nonlinear_arith);
        }
        y = y + 1;
    }
    proof {
        assert(h * w == w * h) by (nonlinear_arith);
        if best.1 > 0 {
            let k = pixel_index(w as int, best.0.0 as int, best.0.1 as int);
            assert(k < w * h);
            assert(best.0.1 < h) by (nonlinear_arith)
                requires
                    k == best.0.1 * w + best.0.0,
                    k < w * h,
                    best.0.0 >= 0,
                    w > 0,
            ;
        }
    }
    best
}

/// The number of pixels of a camera of the given resolution `(width, height)`.
pub open spec fn area(resolution: (u32, u32)) -> int {
    resolution.0 * resolution.1
}

/// The camera to use among those found, given the resolution of each: one with the most pixels,
/// the last such one where several have as many. `None` if no camera was found.
pub fn best_camera_index(resolutions: &Vec<(u32, u32)>) -> (r: Option<usize>)
    requires
        forall|i: int| 0 <= i < resolutions@.len() ==> area(#[trigger] resolutions@[i]) <= u32::MAX,
    ensures
        r is None <==> resolutions@.len() == 0,
        r matches Some(b) ==> {
            &&& b < resolutions@.len()
            &&& forall|i: int| 0 <= i < resolutions@.len() ==> area(#[trigger] resolutions@[i]) <= area(
                resolutions@[b as int],
            )
            &&& forall|i: int| b < i < resolutions@.len() ==> area(#[trigger] resolutions@[i]) < area(
                resolutions@[b as int],
            )
        },
{
    if resolutions.len() == 0 {
        return None;
    }
    let mut best: usize = 0;
    let (w0, h0) = resolutions[0];
    assert(area(resolutions@[0]) <= u32::MAX);
    let mut best_area: u32 = w0 * h0;
    let mut i: usize = 1;
    while i < resolutions.len()
        invariant
            1 <= i <= resolutions@.len(),
            best < i,
            best_area == area(resolutions@[best as int]),
            forall|j: int| 0 <= j < resolutions@.len() ==> area(#[trigger] resolutions@[j]) <= u32::MAX,
            forall|j: int| 0 <= j < i ==> area(#[trigger] resolutions@[j]) <= best_area,
            forall|j: int| best < j < i ==> area(#[trigger] resolutions@[j]) < best_area,
        decreases resolutions@.len() - i,
    {
        let (w, h) = resolutions[i];
        assert(area(resolutions@[i as int]) <= u32::MAX);
        let a = w * h;
        if a >= best_area {
            best = i;
            best_area = a;
        }
        i = i + 1;
    }
    Some(best)
}

} // verus!
