//! The integer geometry behind GIFT coordinates: bounding boxes of the scanned photos, where each
//! light stands relative to the trunk of the tree in each photo, and the extent of a list of
//! integer coordinates.
//!
//! The GIFT (short for Geographic Information For Trees) coordinate system gives each light a 3D
//! coordinate. The x and y values are normalised to lie between -1 and 1 with the trunk at
//! (0, 0); the z values start at 0 at the lowest light and use the same scale as x and y.

use crate::photo_map::{ImgPoint, PhotoMap, PhotoPoint};
use crate::scanner_shared::CompassDirection;
use vstd::prelude::*;

verus! {

/// The smaller of two numbers.
pub open spec fn min_u32(a: u32, b: u32) -> u32 {
    if a <= b {
        a
    } else {
        b
    }
}

/// The larger of two numbers.
pub open spec fn max_u32(a: u32, b: u32) -> u32 {
    if a >= b {
        a
    } else {
        b
    }
}

/// The bounding box of some photos, as `(top left, bottom right)`: the smallest x and y and the
/// largest x and y of their brightest pixels. With no photos it is `((u32::MAX, u32::MAX), (0, 0))`.
pub open spec fn bounding_box_spec(points: Seq<PhotoPoint>) -> (ImgPoint, ImgPoint)
    decreases points.len(),
{
    if points.len() == 0 {
        ((u32::MAX, u32::MAX), (0u32, 0u32))
    } else {
        let ((tlx, tly), (brx, bry)) = bounding_box_spec(points.drop_last());
        let ((x, y), _b) = points.last();
        ((min_u32(tlx, x), min_u32(tly, y)), (max_u32(brx, x), max_u32(bry, y)))
    }
}

/// Facts that pin the bounding box down: it contains every point, and each of its edges passes
/// through some point.
pub proof fn lemma_bounding_box(points: Seq<PhotoPoint>)
    ensures
        ({
            let ((tlx, tly), (brx, bry)) = bounding_box_spec(points);
            &&& forall|i: int| 0 <= i < points.len() ==> tlx <= (#[trigger] points[i]).0.0 <= brx
                && tly <= points[i].0.1 <= bry
            &&& points.len() > 0 ==> {
                &&& exists|i: int| 0 <= i < points.len() && tlx == (#[trigger] points[i]).0.0
                &&& exists|i: int| 0 <= i < points.len() && tly == (#[trigger] points[i]).0.1
                &&& exists|i: int| 0 <= i < points.len() && brx == (#[trigger] points[i]).0.0
                &&& exists|i: int| 0 <= i < points.len() && bry == (#[trigger] points[i]).0.1
            }
        }),
    decreases points.len(),
{
    if points.len() > 0 {
        let init = points.drop_last();
        lemma_bounding_box(init);
        let n = points.len() - 1;
        assert forall|i: int| 0 <= i < n implies points[i] == #[trigger] init[i] by {}
        let ((tlx, tly), (brx, bry)) = bounding_box_spec(init);
        let ((x, y), _b) = points.last();
        assert(points[n] == points.last());
        let ((ntlx, ntly), (nbrx, nbry)) = bounding_box_spec(points);
        assert forall|i: int| 0 <= i < points.len() implies ntlx <= (#[trigger] points[i]).0.0
            <= nbrx && ntly <= points[i].0.1 <= nbry by {
            if i < n {
                assert(points[i] == init[i]);
            }
        }
        if init.len() == 0 {
            assert(ntlx == points[n].0.0 && ntly == points[n].0.1 && nbrx == points[n].0.0
                && nbry == points[n].0.1);
        } else {
            let a = choose|i: int| 0 <= i < init.len() && tlx == (#[trigger] init[i]).0.0;
            let b = choose|i: int| 0 <= i < init.len() && tly == (#[trigger] init[i]).0.1;
            let c = choose|i: int| 0 <= i < init.len() && brx == (#[trigger] init[i]).0.0;
            let d = choose|i: int| 0 <= i < init.len() && bry == (#[trigger] init[i]).0.1;
            assert(points[a] == init[a] && points[b] == init[b] && points[c] == init[c]
                && points[d] == init[d]);
            if x <= tlx {
                assert(ntlx == points[n].0.0);
            } else {
                assert(ntlx == points[a].0.0);
            }
            if y <= tly {
                assert(ntly == points[n].0.1);
            } else {
                assert(ntly == points[b].0.1);
            }
            if x >= brx {
                assert(nbrx == points[n].0.0);
            } else {
                assert(nbrx == points[c].0.0);
            }
            if y >= bry {
                assert(nbry == points[n].0.1);
            } else {
                assert(nbry == points[d].0.1);
            }
        }
    }
}

/// Where each light of a side stands, measured from the photos: its height is how far its pixel is
/// above the lowest lit pixel of the side, so the lowest light has height 0 and none is below it;
/// its offset is how far its pixel is to the right of the trunk, halfway across the box, so no
/// light is further from the trunk than one GIFT unit plus a pixel; and it keeps its brightness.
pub proof fn law_light_positions(points: Seq<PhotoPoint>, k: int)
    requires
        0 <= k < points.len(),
    ensures
        ({
            let (ppu, lights) = direction_geometry_spec(points)->0;
            let ((px, py), b) = points[k];
            let bottom = bounding_box_spec(points).1.1;
            &&& lights.len() == points.len()
            &&& lights[k].height == bottom - py
            &&& lights[k].brightness == b
            &&& lights[k].horizontal_offset == px - (bounding_box_spec(points).0.0 + ppu)
            &&& -(ppu as int) <= lights[k].horizontal_offset <= ppu + 1
            &&& exists|j: int| 0 <= j < points.len() && (#[trigger] lights[j]).height == 0
        }),
{
    lemma_bounding_box(points);
    let bb = bounding_box_spec(points);
    let d = choose|i: int| 0 <= i < points.len() && bb.1.1 == (#[trigger] points[i]).0.1;
    let (ppu, lights) = direction_geometry_spec(points)->0;
    assert(lights[d].height == 0);
    assert(bb.0.0 <= points[k].0.0 <= bb.1.0);
}

/// Find the bounding box of the given photos. The first point in the returned tuple is the top
/// left, and the second is the bottom right.
pub fn get_bounding_box(points: &[PhotoPoint]) -> (r: (ImgPoint, ImgPoint))
    ensures
        r == bounding_box_spec(points@),
{
    let mut tl: ImgPoint = (u32::MAX, u32::MAX);
    let mut br: ImgPoint = (0, 0);
    let mut i: usize = 0;
    while i < points.len()
        invariant
            i <= points@.len(),
            (tl, br) == bounding_box_spec(points@.subrange(0, i as int)),
        decreases points@.len() - i,
    {
        let ((x, y), _brightness) = points[i];
        tl = (if tl.0 <= x { tl.0 } else { x }, if tl.1 <= y { tl.1 } else { y });
        br = (if br.0 >= x { br.0 } else { x }, if br.1 >= y { br.1 } else { y });
        assert(points@.subrange(0, i + 1).drop_last() =~= points@.subrange(0, i as int));
        i = i + 1;
    }
    assert(points@.subrange(0, points@.len() as int) =~= points@);
    (tl, br)
}

/// Where one light appears in the photos of one side, in pixels, measured from the trunk.
#[derive(Clone, Copy, Debug, PartialEq, Eq, Structural)]
pub struct LightPixels {
    /// How far the light is to the right of the trunk (negative: to the left).
    pub horizontal_offset: i64,
    /// How far the light is above the bottom of the bounding box.
    pub height: u32,
    /// The brightness of the light in the photo.
    pub brightness: u8,
}

/// The pixel geometry of the photos of one side of the tree.
#[derive(Clone, Debug)]
pub struct DirectionGeometry {
    /// The side of the tree facing the camera.
    pub direction: CompassDirection,
    /// How many pixels make one GIFT unit: half the width of the bounding box.
    pub pixels_per_gift_unit: u32,
    /// Each light, in the order of the photos.
    pub lights: Vec<LightPixels>,
}

/// Where the light of a photo stands relative to the trunk, given the bounding box of all the
/// photos of its side: the trunk is halfway across the box, and the height is measured from the
/// bottom of the box.
pub open spec fn light_pixels_spec(bb: (ImgPoint, ImgPoint), p: PhotoPoint) -> LightPixels {
    let ((tlx, tly), (brx, bry)) = bb;
    let ppu = (brx - tlx) / 2;
    let middle_x = tlx + ppu;
    let ((px, py), brightness) = p;
    LightPixels {
        horizontal_offset: (px - middle_x) as i64,
        height: ((bry - tly) - (py - tly)) as u32,
        brightness,
    }
}

/// The pixel geometry of the photos of a side: `None` if there are no photos.
pub open spec fn direction_geometry_spec(points: Seq<PhotoPoint>) -> Option<(u32, Seq<LightPixels>)> {
    if points.len() == 0 {
        None
    } else {
        let bb = bounding_box_spec(points);
        Some(
            (
                ((bb.1.0 - bb.0.0) / 2) as u32,
                points.map_values(|p: PhotoPoint| light_pixels_spec(bb, p)),
            ),
        )
    }
}

/// Work out where each light of a side stands relative to the trunk in pixels, and how many
/// pixels make one GIFT unit. Returns `None` if the side has no photos, since such a side has no
/// bounding box.
pub fn direction_geometry(direction: CompassDirection, points: &Vec<PhotoPoint>) -> (r: Option<
    DirectionGeometry,
>)
    ensures
        r is None <==> direction_geometry_spec(points@) is None,
        r matches Some(g) ==> {
            &&& g.direction == direction
            &&& direction_geometry_spec(points@) == Some(
                (g.pixels_per_gift_unit, g.lights@),
            )
        },
{
    if points.len() == 0 {
        return None;
    }
    let bb = get_bounding_box(points.as_slice());
    proof {
        lemma_bounding_box(points@);
    }
    let ((tlx, tly), (brx, bry)) = bb;
    assert(tlx <= points@[0].0.0 <= brx && tly <= points@[0].0.1 <= bry);
    let ppu = (brx - tlx) / 2;
    let middle_x = tlx + ppu;
    let mut lights: Vec<LightPixels> = Vec::new();
    let mut i: usize = 0;
    while i < points.len()
        invariant
            i <= points@.len(),
            bb == bounding_box_spec(points@),
            bb == ((tlx, tly), (brx, bry)),
            ppu == (brx - tlx) / 2,
            middle_x == tlx + ppu,
            tlx <= brx,
            tly <= bry,
            forall|j: int| 0 <= j < points@.len() ==> tlx <= (#[trigger] points@[j]).0.0 <= brx
                && tly <= points@[j].0.1 <= bry,
            lights@ == points@.subrange(0, i as int).map_values(
                |p: PhotoPoint| light_pixels_spec(bb, p),
            ),
        decreases points@.len() - i,
    {
        let ((px, py), brightness) = points[i];
        assert(tlx <= px <= brx && tly <= py <= bry);
        let lp = LightPixels {
            horizontal_offset: px as i64 - middle_x as i64,
            height: (bry - tly) - (py - tly),
            brightness,
        };
        assert(lp == light_pixels_spec(bb, points@[i as int]));
        lights.push(lp);
        assert(points@.subrange(0, i + 1).map_values(|p: PhotoPoint| light_pixels_spec(bb, p))
            =~= points@.subrange(0, i as int).map_values(|p: PhotoPoint| light_pixels_spec(bb, p)).push(
            lp,
        ));
        i = i + 1;
    }
    assert(points@.subrange(0, points@.len() as int) =~= points@);
    Some(DirectionGeometry { direction, pixels_per_gift_unit: ppu, lights })
}

/// The sides among the first `k` directions (clockwise from north) that have an entry in a map
/// of photos, in that order.
pub open spec fn present_sides(photos: Map<CompassDirection, Seq<PhotoPoint>>, k: nat) -> Seq<
    CompassDirection,
>
    decreases k,
{
    if k == 0 {
        Seq::empty()
    } else {
        let d = CompassDirection::spec_all()[k - 1];
        let s = present_sides(photos, (k - 1) as nat);
        if photos.contains_key(d) {
            s.push(d)
        } else {
            s
        }
    }
}

/// The sides of a map of photos that have an entry, clockwise from north.
pub open spec fn sides_with_entries(photos: Map<CompassDirection, Seq<PhotoPoint>>) -> Seq<
    CompassDirection,
> {
    present_sides(photos, 8)
}

/// Can the photos be combined into one list of lights? There must be a side with an entry, and
/// every side with an entry must have the same, non-zero, number of photos.
pub open spec fn geometry_consistent(photos: Map<CompassDirection, Seq<PhotoPoint>>) -> bool {
    let sides = sides_with_entries(photos);
    &&& sides.len() > 0
    &&& forall|k: int|
        0 <= k < sides.len() ==> photos[#[trigger] sides[k]].len() > 0 && photos[sides[k]].len()
            == photos[sides[0]].len()
}

/// Taking more directions only adds sides at the end.
proof fn lemma_present_sides_prefix(photos: Map<CompassDirection, Seq<PhotoPoint>>, m: nat, n: nat)
    requires
        m <= n,
    ensures
        present_sides(photos, m).len() <= present_sides(photos, n).len(),
        forall|i: int|
            0 <= i < present_sides(photos, m).len() ==> present_sides(photos, n)[i]
                == #[trigger] present_sides(photos, m)[i],
    decreases n - m,
{
    if m < n {
        lemma_present_sides_prefix(photos, m, (n - 1) as nat);
    }
}

/// The side at place `i` of the clockwise list of all sides takes `i` turns from north.
proof fn lemma_all_turns(i: int)
    requires
        0 <= i < 8,
    ensures
        CompassDirection::spec_all()[i].spec_turns() == i,
{
}

/// A side is among the first `k` directions with an entry exactly when it has an entry and
/// takes fewer than `k` turns from north; no side is listed twice.
proof fn lemma_present_sides_contains(photos: Map<CompassDirection, Seq<PhotoPoint>>, k: nat)
    requires
        k <= 8,
    ensures
        forall|d: CompassDirection|
            #[trigger] present_sides(photos, k).contains(d) <==> (photos.contains_key(d)
                && d.spec_turns() < k),
        present_sides(photos, k).no_duplicates(),
    decreases k,
{
    if k > 0 {
        lemma_present_sides_contains(photos, (k - 1) as nat);
        let dk = CompassDirection::spec_all()[k - 1];
        lemma_all_turns(k - 1);
        let s = present_sides(photos, (k - 1) as nat);
        assert forall|d: CompassDirection|
            #[trigger] present_sides(photos, k).contains(d) <==> (photos.contains_key(d)
                && d.spec_turns() < k) by {
            crate::scanner_shared::lemma_turns_injective(d, dk);
            if photos.contains_key(dk) {
                assert(present_sides(photos, k) == s.push(dk));
                if d == dk {
                    assert(s.push(dk)[s.len() as int] == dk);
                } else {
                    assert(s.push(dk).contains(d) ==> s.contains(d)) by {
                        if s.push(dk).contains(d) {
                            let j = choose|j: int| 0 <= j < s.push(dk).len() && s.push(dk)[j] == d;
                            assert(j < s.len());
                        }
                    }
                    assert(s.contains(d) ==> s.push(dk).contains(d)) by {
                        if s.contains(d) {
                            let j = choose|j: int| 0 <= j < s.len() && s[j] == d;
                            assert(s.push(dk)[j] == d);
                        }
                    }
                }
            }
        }
        if photos.contains_key(dk) {
            crate::scanner_shared::lemma_turns_injective(dk, dk);
            assert(!s.contains(dk));
            assert forall|a: int, b: int|
                0 <= a < s.push(dk).len() && 0 <= b < s.push(dk).len() && a != b implies s.push(
                    dk,
                )[a] != s.push(dk)[b] by {
                if a < s.len() && b < s.len() {
                } else if a == s.len() {
                    assert(s.contains(s.push(dk)[b]));
                } else {
                    assert(s.contains(s.push(dk)[a]));
                }
            }
        }
    }
}

/// The sides listed for a map of photos are exactly the sides that have an entry, each listed
/// once, clockwise from north: no scanned side, diagonal or not, is left out.
pub proof fn law_every_scanned_side_is_listed(
    photos: Map<CompassDirection, Seq<PhotoPoint>>,
    d: CompassDirection,
)
    ensures
        sides_with_entries(photos).contains(d) <==> photos.contains_key(d),
        sides_with_entries(photos).no_duplicates(),
        forall|a: int, b: int|
            0 <= a < b < sides_with_entries(photos).len() ==> (#[trigger] sides_with_entries(
                photos,
            )[a]).spec_turns() < (#[trigger] sides_with_entries(photos)[b]).spec_turns(),
{
    lemma_present_sides_contains(photos, 8);
    crate::scanner_shared::law_turns_round_trip(d);
    lemma_present_sides_ordered(photos, 8);
}

/// The sides listed go clockwise from north.
proof fn lemma_present_sides_ordered(photos: Map<CompassDirection, Seq<PhotoPoint>>, k: nat)
    requires
        k <= 8,
    ensures
        forall|a: int, b: int|
            0 <= a < b < present_sides(photos, k).len() ==> (#[trigger] present_sides(
                photos,
                k,
            )[a]).spec_turns() < (#[trigger] present_sides(photos, k)[b]).spec_turns(),
        forall|a: int|
            0 <= a < present_sides(photos, k).len() ==> (#[trigger] present_sides(
                photos,
                k,
            )[a]).spec_turns() < k,
    decreases k,
{
    if k > 0 {
        lemma_present_sides_ordered(photos, (k - 1) as nat);
        lemma_all_turns(k - 1);
        let dk = CompassDirection::spec_all()[k - 1];
        let s = present_sides(photos, (k - 1) as nat);
        let t = present_sides(photos, k);
        if photos.contains_key(dk) {
            assert(t == s.push(dk));
            assert forall|a: int| 0 <= a < t.len() implies (#[trigger] t[a]).spec_turns() < k by {
                if a < s.len() {
                    assert(t[a] == s[a]);
                }
            }
            assert forall|a: int, b: int| 0 <= a < b < t.len() implies (#[trigger] t[a]).spec_turns()
                < (#[trigger] t[b]).spec_turns() by {
                assert(t[a] == s[a]);
                if b < s.len() {
                    assert(t[b] == s[b]);
                }
            }
        } else {
            assert(t == s);
        }
    }
}

/// Work out the pixel geometry of every side that has an entry, clockwise from north.
///
/// Returns `None` unless the photos are [`geometry_consistent`]: when no side has an entry, when a
/// side has no photos, or when two sides have different numbers of photos, there is no one list
/// of lights to combine the sides into.
pub fn scan_geometry(map: &PhotoMap) -> (r: Option<Vec<DirectionGeometry>>)
    requires
        map.wf(),
    ensures
        r is Some <==> geometry_consistent(map.view()),
        r matches Some(gs) ==> {
            &&& gs@.len() == sides_with_entries(map.view()).len()
            &&& forall|k: int|
                0 <= k < gs@.len() ==> {
                    let d = sides_with_entries(map.view())[k];
                    &&& (#[trigger] gs@[k]).direction == d
                    &&& direction_geometry_spec(map.view()[d]) == Some(
                        (gs@[k].pixels_per_gift_unit, gs@[k].lights@),
                    )
                }
            &&& forall|d: CompassDirection|
                #[trigger] map.view().contains_key(d) ==> exists|k: int|
                    0 <= k < gs@.len() && (#[trigger] gs@[k]).direction == d
        },
{
    let all = CompassDirection::all();
    let ghost photos = map.view();
    let mut gs: Vec<DirectionGeometry> = Vec::new();
    let mut i: usize = 0;
    while i < all.len()
        invariant
            map.wf(),
            photos == map.view(),
            all@ == CompassDirection::spec_all(),
            i <= all@.len(),
            gs@.len() == present_sides(photos, i as nat).len(),
            forall|k: int|
                0 <= k < gs@.len() ==> {
                    let d = present_sides(photos, i as nat)[k];
                    &&& (#[trigger] gs@[k]).direction == d
                    &&& photos.contains_key(d)
                    &&& direction_geometry_spec(photos[d]) == Some(
                        (gs@[k].pixels_per_gift_unit, gs@[k].lights@),
                    )
                    &&& photos[d].len() > 0
                    &&& gs@[k].lights@.len() == photos[d].len()
                    &&& photos[d].len() == photos[present_sides(photos, i as nat)[0]].len()
                },
        decreases all@.len() - i,
    {
        let d = all[i];
        proof {
            lemma_present_sides_prefix(photos, (i + 1) as nat, 8);
            lemma_present_sides_prefix(photos, i as nat, (i + 1) as nat);
        }
        if map.has_entry(d) {
            let points = map.photos(d);
            assert(present_sides(photos, (i + 1) as nat) == present_sides(photos, i as nat).push(d));
            match direction_geometry(d, points) {
                None => {
                    let ghost k = gs@.len() as int;
                    assert(present_sides(photos, (i + 1) as nat)[k] == d);
                    assert(present_sides(photos, 8)[k] == present_sides(photos, (i + 1) as nat)[k]);
                    assert(photos[sides_with_entries(photos)[k]].len() == 0);
                    return None;
                },
                Some(g) => {
                    assert(g.lights@.len() == photos[d].len());
                    if gs.len() > 0 && g.lights.len() != gs[0].lights.len() {
                        let ghost k = gs@.len() as int;
                        assert(present_sides(photos, (i + 1) as nat)[k] == d);
                        assert(present_sides(photos, 8)[k] == present_sides(photos, (i + 1) as nat)[k]);
                        assert(present_sides(photos, (i + 1) as nat)[0] == present_sides(photos, i as nat)[0]);
                        assert(present_sides(photos, 8)[0] == present_sides(photos, (i + 1) as nat)[0]);
                        assert(gs@[0].lights@.len() == photos[present_sides(photos, i as nat)[0]].len());
                        assert(photos[sides_with_entries(photos)[k]].len() != photos[sides_with_entries(photos)[0]].len());
                        return None;
                    }
                    gs.push(g);
                    proof {
                        let s1 = present_sides(photos, (i + 1) as nat);
                        let s0 = present_sides(photos, i as nat);
                        assert forall|k: int| 0 <= k < gs@.len() implies {
                            let e = s1[k];
                            &&& (#[trigger] gs@[k]).direction == e
                            &&& photos.contains_key(e)
                            &&& direction_geometry_spec(photos[e]) == Some(
                                (gs@[k].pixels_per_gift_unit, gs@[k].lights@),
                            )
                            &&& photos[e].len() > 0
                            &&& gs@[k].lights@.len() == photos[e].len()
                            &&& photos[e].len() == photos[s1[0]].len()
                        } by {
                            if k < s0.len() {
                                assert(s1[k] == s0[k]);
                            }
                            if s0.len() > 0 {
                                assert(s1[0] == s0[0]);
                            }
                        }
                    }
                },
            }
        }
        i = i + 1;
    }
    if gs.len() == 0 {
        return None;
    }
    proof {
        let sides = sides_with_entries(photos);
        assert forall|k: int| 0 <= k < sides.len() implies photos[#[trigger] sides[k]].len() > 0
            && photos[sides[k]].len() == photos[sides[0]].len() by {
            assert(gs@[k].direction == sides[k]);
        }
    }
    proof {
        assert forall|d: CompassDirection| #[trigger] map.view().contains_key(d) implies exists|
            k: int,
        | 0 <= k < gs@.len() && (#[trigger] gs@[k]).direction == d by {
            law_every_scanned_side_is_listed(map.view(), d);
            let sides = sides_with_entries(map.view());
            let k = choose|k: int| 0 <= k < sides.len() && sides[k] == d;
            assert(gs@[k].direction == d);
        }
    }
    Some(gs)
}

/// The extent of a list of integer coordinates along each axis.
#[derive(Clone, Copy, Debug, PartialEq, Eq, Structural)]
pub struct IntCoordBounds {
    pub min_x: i32,
    pub max_x: i32,
    pub min_y: i32,
    pub max_y: i32,
    pub min_z: i32,
    pub max_z: i32,
}

/// An integer coordinate `(x, y, z)`.
pub type IntCoord = (i32, i32, i32);

/// `b` is exactly the extent of the coordinates along each axis: every coordinate lies within
/// it, and each of its bounds is reached by some coordinate.
pub open spec fn is_extent(coords: Seq<IntCoord>, b: IntCoordBounds) -> bool {
    &&& forall|i: int|
        0 <= i < coords.len() ==> {
            let (x, y, z) = #[trigger] coords[i];
            &&& b.min_x <= x <= b.max_x
            &&& b.min_y <= y <= b.max_y
            &&& b.min_z <= z <= b.max_z
        }
    &&& exists|i: int| 0 <= i < coords.len() && (#[trigger] coords[i]).0 == b.min_x
    &&& exists|i: int| 0 <= i < coords.len() && (#[trigger] coords[i]).0 == b.max_x
    &&& exists|i: int| 0 <= i < coords.len() && (#[trigger] coords[i]).1 == b.min_y
    &&& exists|i: int| 0 <= i < coords.len() && (#[trigger] coords[i]).1 == b.max_y
    &&& exists|i: int| 0 <= i < coords.len() && (#[trigger] coords[i]).2 == b.min_z
    &&& exists|i: int| 0 <= i < coords.len() && (#[trigger] coords[i]).2 == b.max_z
}

/// The extent of a list of integer coordinates, which is where normalising them into GIFT
/// coordinates starts; there is none for an empty list.
pub fn int_coord_bounds(coords: &Vec<IntCoord>) -> (r: Option<IntCoordBounds>)
    ensures
        r is None <==> coords@.len() == 0,
        r matches Some(b) ==> is_extent(coords@, b),
{
    if coords.len() == 0 {
        return None;
    }
    let (x0, y0, z0) = coords[0];
    let mut b = IntCoordBounds {
        min_x: x0,
        max_x: x0,
        min_y: y0,
        max_y: y0,
        min_z: z0,
        max_z: z0,
    };
    let mut i: usize = 1;
    assert(coords@.subrange(0, 1)[0] == coords@[0]);
    while i < coords.len()
        invariant
            1 <= i <= coords@.len(),
            is_extent(coords@.subrange(0, i as int), b),
        decreases coords@.len() - i,
    {
        let ghost prev = b;
        let ghost old_sub = coords@.subrange(0, i as int);
        let (x, y, z) = coords[i];
        if x < b.min_x {
            b.min_x = x;
        }
        if x > b.max_x {
            b.max_x = x;
        }
        if y < b.min_y {
            b.min_y = y;
        }
        if y > b.max_y {
            b.max_y = y;
        }
        if z < b.min_z {
            b.min_z = z;
        }
        if z > b.max_z {
            b.max_z = z;
        }
        proof {
            let sub = coords@.subrange(0, i + 1);
            assert forall|j: int| 0 <= j < i implies sub[j] == #[trigger] old_sub[j] by {}
            assert(sub[i as int] == coords@[i as int]);
            assert forall|j: int| 0 <= j < sub.len() implies {
                let (x, y, z) = #[trigger] sub[j];
                &&& b.min_x <= x <= b.max_x
                &&& b.min_y <= y <= b.max_y
                &&& b.min_z <= z <= b.max_z
            } by {
                if j < i {
                    assert(sub[j] == old_sub[j]);
                }
            }
            let k1 = choose|j: int| 0 <= j < old_sub.len() && (#[trigger] old_sub[j]).0 == prev.min_x;
            let k2 = choose|j: int| 0 <= j < old_sub.len() && (#[trigger] old_sub[j]).0 == prev.max_x;
            let k3 = choose|j: int| 0 <= j < old_sub.len() && (#[trigger] old_sub[j]).1 == prev.min_y;
            let k4 = choose|j: int| 0 <= j < old_sub.len() && (#[trigger] old_sub[j]).1 == prev.max_y;
            let k5 = choose|j: int| 0 <= j < old_sub.len() && (#[trigger] old_sub[j]).2 == prev.min_z;
            let k6 = choose|j: int| 0 <= j < old_sub.len() && (#[trigger] old_sub[j]).2 == prev.max_z;
            assert(sub[k1] == old_sub[k1] && sub[k2] == old_sub[k2] && sub[k3] == old_sub[k3]);
            assert(sub[k4] == old_sub[k4] && sub[k5] == old_sub[k5] && sub[k6] == old_sub[k6]);
            let n = i as int;
            if b.min_x == prev.min_x { assert(sub[k1].0 == b.min_x); } else { assert(sub[n].0 == b.min_x); }
            if b.max_x == prev.max_x { assert(sub[k2].0 == b.max_x); } else { assert(sub[n].0 == b.max_x); }
            if b.min_y == prev.min_y { assert(sub[k3].1 == b.min_y); } else { assert(sub[n].1 == b.min_y); }
            if b.max_y == prev.max_y { assert(sub[k4].1 == b.max_y); } else { assert(sub[n].1 == b.max_y); }
            if b.min_z == prev.min_z { assert(sub[k5].2 == b.min_z); } else { assert(sub[n].2 == b.min_z); }
            if b.max_z == prev.max_z { assert(sub[k6].2 == b.max_z); } else { assert(sub[n].2 == b.max_z); }
        }
        i = i + 1;
    }
    assert(coords@.subrange(0, coords@.len() as int) =~= coords@);
    Some(b)
}

} // verus!
