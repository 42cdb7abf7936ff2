//! A damage region: an additive union of rectangles in display points.
use vstd::prelude::*;
use crate::geometry::Rect;

verus! {

/// A region keeps `r`: it has an area and its coordinates are in range.
pub open spec fn keeps(r: Rect) -> bool {
    !r.is_empty_spec() && r.coords_ok()
}

/// The point `(x, y)` lies in one of the rectangles of `rs`.
pub open spec fn rects_contain(rs: Seq<Rect>, x: int, y: int) -> bool {
    exists|i: int| 0 <= i < rs.len() && (#[trigger] rs[i]).contains(x, y)
}

/// A union of rectangles. Rectangles without area, or with a coordinate beyond
/// `MAX_COORD`, are never kept.
#[derive(Debug)]
pub struct Region {
    rects: Vec<Rect>,
}

impl View for Region {
    type V = Seq<Rect>;

    closed spec fn view(&self) -> Seq<Rect> {
        self.rects@
    }
}

impl Region {
    #[verifier::type_invariant]
    spec fn inv(&self) -> bool {
        forall|i: int| 0 <= i < self.rects@.len() ==> keeps(#[trigger] self.rects@[i])
    }

    /// Brings into a proof that every rectangle held has an area and coordinates in range.
    pub fn ensure_valid(&self)
        ensures
            forall|i: int| 0 <= i < self@.len() ==> keeps(#[trigger] self@[i]),
    {
        proof {
            use_type_invariant(self);
        }
    }

    /// The point `(x, y)` lies in the region.
    pub open spec fn contains(&self, x: int, y: int) -> bool {
        rects_contain(self@, x, y)
    }

    /// The region that holds nothing.
    pub fn empty() -> (r: Region)
        ensures
            r@ == Seq::<Rect>::empty(),
    {
        Region { rects: Vec::new() }
    }

    /// The rectangles of the region, in the order they were added.
    pub fn rects(&self) -> (r: &Vec<Rect>)
        ensures
            r@ == self@,
    {
        &self.rects
    }

    /// The region covers no point.
    pub fn is_empty(&self) -> (r: bool)
        ensures
            r == (self@.len() == 0),
            r <==> (forall|x: int, y: int| !self.contains(x, y)),
    {
        proof {
            use_type_invariant(self);
            if self@.len() > 0 {
                let q = self@[0];
                assert(self@[0].contains(q.x0 as int, q.y0 as int));
                assert(self.contains(q.x0 as int, q.y0 as int));
            } else {
                assert forall|x: int, y: int| !self.contains(x, y) by {}
            }
        }
        self.rects.len() == 0
    }

    /// Adds `rect` to the region; a rectangle that the region does not keep
    /// changes nothing.
    pub fn add_rect(&mut self, rect: Rect)
        ensures
            final(self)@ == (if !keeps(rect) {
                old(self)@
            } else {
                old(self)@.push(rect)
            }),
    {
        proof {
            use_type_invariant(&*self);
        }
        if !rect.is_empty() && rect.in_range() {
            let ghost before = self.rects@;
            proof {
                let after = before.push(rect);
                assert forall|i: int| 0 <= i < after.len() implies keeps(
                #[trigger] after[i]) by {
                    if i < before.len() {
                        assert(after[i] == before[i]);
                    }
                }
            }
            let mut held = Region::empty();
            std::mem::swap(self, &mut held);
            let mut rects = held.rects;
            rects.push(rect);
            *self = Region { rects };
        }
    }

    /// Adds every rectangle of `other` to the region.
    pub fn union_with(&mut self, other: &Region)
        ensures
            final(self)@ == old(self)@ + other@,
    {
        proof {
            use_type_invariant(other);
        }
        let mut i: usize = 0;
        while i < other.rects.len()
            invariant
                i <= other@.len(),
                self@ == old(self)@ + other@.subrange(0, i as int),
                forall|k: int| 0 <= k < other@.len() ==> keeps(#[trigger] other@[k]),
            decreases other@.len() - i,
        {
            let r = other.rects[i];
            self.add_rect(r);
            i = i + 1;
            assert(other@.subrange(0, i as int) == other@.subrange(0, i - 1 as int).push(r));
        }
        assert(other@.subrange(0, other@.len() as int) == other@);
    }

    /// Empties the region and returns what it held.
    pub fn take(&mut self) -> (r: Region)
        ensures
            r@ == old(self)@,
            final(self)@ == Seq::<Rect>::empty(),
    {
        let mut r = Region::empty();
        std::mem::swap(self, &mut r);
        r
    }
}

/// A union of regions covers exactly the points that either one covers.
pub proof fn lemma_union_contains(a: Seq<Rect>, b: Seq<Rect>, x: int, y: int)
    ensures
        rects_contain(a + b, x, y) <==> (rects_contain(a, x, y) || rects_contain(b, x, y)),
{
    let ab = a + b;
    if rects_contain(ab, x, y) {
        let i = choose|i: int| 0 <= i < ab.len() && (#[trigger] ab[i]).contains(x, y);
        if i < a.len() {
            assert(a[i] == ab[i]);
        } else {
            assert(b[i - a.len()] == ab[i]);
        }
    }
    if rects_contain(a, x, y) {
        let i = choose|i: int| 0 <= i < a.len() && (#[trigger] a[i]).contains(x, y);
        assert(ab[i] == a[i]);
    }
    if rects_contain(b, x, y) {
        let i = choose|i: int| 0 <= i < b.len() && (#[trigger] b[i]).contains(x, y);
        assert(ab[a.len() + i] == b[i]);
    }
}

} // verus!
