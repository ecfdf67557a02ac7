//! The photos taken during a scan, kept for each side of the tree.

use crate::scanner_shared::CompassDirection;
use vstd::prelude::*;

verus! {

/// A point in an image: `(x, y)` with (0, 0) in the top left.
pub type ImgPoint = (u32, u32);

/// What one photo records: the position of its brightest pixel and that pixel's brightness.
pub type PhotoPoint = (ImgPoint, u8);

/// The photos of each side of the tree, in the order of the lights that were photographed.
///
/// A side may have no entry at all, or an entry with no photos (once its photos were thrown away).
pub struct PhotoMap {
    /// The photos of each side, indexed by the side's number of turns from north.
    lists: Vec<Vec<PhotoPoint>>,
    /// Whether each side has an entry, indexed like `lists`.
    present: Vec<bool>,
}

impl PhotoMap {
    /// The internal invariant: one list and one presence flag for each of the eight sides, and no
    /// photos for a side without an entry.
    pub closed spec fn wf(&self) -> bool {
        &&& self.lists@.len() == 8
        &&& self.present@.len() == 8
        &&& forall|i: int| 0 <= i < 8 && !self.present@[i] ==> self.lists@[i]@.len() == 0
    }

    /// The photos of each side that has an entry.
    pub closed spec fn view(&self) -> Map<CompassDirection, Seq<PhotoPoint>> {
        Map::new(
            |d: CompassDirection| self.present@[d.spec_turns() as int],
            |d: CompassDirection| self.lists@[d.spec_turns() as int]@,
        )
    }

    /// A map with no entries.
    pub fn new() -> (r: Self)
        ensures
            r.wf(),
            r.view() == Map::<CompassDirection, Seq<PhotoPoint>>::empty(),
    {
        let mut lists: Vec<Vec<PhotoPoint>> = Vec::new();
        let mut present: Vec<bool> = Vec::new();
        let mut i: usize = 0;
        while i < 8
            invariant
                i <= 8,
                lists@.len() == i,
                present@.len() == i,
                forall|j: int| 0 <= j < i ==> !present@[j] && lists@[j]@.len() == 0,
            decreases 8 - i,
        {
            lists.push(Vec::new());
            present.push(false);
            i = i + 1;
        }
        let r = PhotoMap { lists, present };
        assert(r.view() =~= Map::<CompassDirection, Seq<PhotoPoint>>::empty());
        r
    }

    /// Throw away the photos of the given side, keeping its entry if it has one.
    pub fn clear_photos(&mut self, d: CompassDirection)
        requires
            old(self).wf(),
        ensures
            final(self).wf(),
            final(self).view() == (if old(self).view().contains_key(d) {
                old(self).view().insert(d, Seq::empty())
            } else {
                old(self).view()
            }),
    {
        let i = d.turns_from_north() as usize;
        self.lists[i].clear();
        proof {
            crate::scanner_shared::lemma_turns_injective(d, d);
            assert forall|e: CompassDirection| e != d implies e.spec_turns() != d.spec_turns() by {
                crate::scanner_shared::lemma_turns_injective(d, e);
            }
            if old(self).view().contains_key(d) {
                assert(self.view() =~= old(self).view().insert(d, Seq::empty()));
            } else {
                assert(self.view() =~= old(self).view());
            }
        }
    }

    /// Add a photo at the end of the list of the given side, making an entry for the side if it
    /// has none.
    pub fn push_photo(&mut self, d: CompassDirection, photo: PhotoPoint)
        requires
            old(self).wf(),
        ensures
            final(self).wf(),
            final(self).view() == old(self).view().insert(d, old(self).photos_of(d).push(photo)),
    {
        let i = d.turns_from_north() as usize;
        self.lists[i].push(photo);
        self.present.set(i, true);
        proof {
            assert forall|e: CompassDirection| e != d implies e.spec_turns() != d.spec_turns() by {
                crate::scanner_shared::lemma_turns_injective(d, e);
            }
            let k = d.spec_turns() as int;
            assert(self.lists@[k]@ == old(self).lists@[k]@.push(photo));
            assert(old(self).photos_of(d) == old(self).lists@[k]@);
            assert(self.view() =~= old(self).view().insert(d, old(self).photos_of(d).push(photo)));
        }
    }

    /// The photos of a side: those of its entry, or none if it has no entry.
    pub open spec fn photos_of(&self, d: CompassDirection) -> Seq<PhotoPoint> {
        if self.view().contains_key(d) {
            self.view()[d]
        } else {
            Seq::empty()
        }
    }

    /// Does the given side have an entry?
    pub fn has_entry(&self, d: CompassDirection) -> (r: bool)
        requires
            self.wf(),
        ensures
            r == self.view().contains_key(d),
    {
        self.present[d.turns_from_north() as usize]
    }

    /// The photos of a side (empty if the side has no entry).
    pub fn photos(&self, d: CompassDirection) -> (r: &Vec<PhotoPoint>)
        requires
            self.wf(),
        ensures
            r@ == self.photos_of(d),
    {
        &self.lists[d.turns_from_north() as usize]
    }
}

} // verus!
