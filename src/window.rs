//! A window's own state: its size and scale, the damage owed to the next frame,
//! its pending timers and the idle queue it shares with its idle handles.
use vstd::prelude::*;
use crate::application::{WinHandler, WindowHandle};
use crate::error::Error;
use crate::geometry::{IRect, Rect, Scale, Size, rotated, input_coord_ok, transform_clip_rect, lemma_expand_covers};
use crate::idle::{IdleHandle, IdleKind, SharedIdleQueue, new_idle_queue, take_idle_items};
use crate::region::{Region, keeps, rects_contain, lemma_union_contains};
use crate::timer::{Instant, Timer, TimerQueue, TimerToken, in_firing_order, tokens_below};

verus! {

/// The pixel clip for a damaged rectangle: the device pixels it touches, turned
/// for a portrait display of height `h` where `portrait` is `Some(h)`.
pub open spec fn clip_rect(r: Rect, scale: Scale, portrait: Option<i64>) -> IRect {
    match portrait {
        Some(h) => rotated(r.px_spec(scale), h),
        None => r.px_spec(scale),
    }
}

/// The pixel clips for a sequence of damaged rectangles.
pub open spec fn clip_rects(rs: Seq<Rect>, scale: Scale, portrait: Option<i64>) -> Seq<IRect> {
    rs.map_values(|r: Rect| clip_rect(r, scale, portrait))
}

/// Invalidation under `scale` adds `r`: it is in range, and grown to the pixel
/// grid it has an area.
pub open spec fn counts(r: Rect, scale: Scale) -> bool {
    r.input_ok() && !r.expand_spec(scale).is_empty_spec()
}

/// The damage after `rect` is invalidated under `scale`: the rectangle is grown
/// to the pixel grid and added, unless it is out of range or has no area once
/// grown.
pub open spec fn invalidation_step(invalid: Seq<Rect>, rect: Rect, scale: Scale) -> Seq<Rect> {
    if counts(rect, scale) {
        invalid.push(rect.expand_spec(scale))
    } else {
        invalid
    }
}

/// What one frame repaints.
#[derive(Debug)]
pub struct Frame {
    invalid: Region,
    damage: Region,
    clip: Vec<IRect>,
}

impl Frame {
    /// What was invalidated since the previous frame began.
    pub closed spec fn invalid_spec(&self) -> Seq<Rect> {
        self.invalid@
    }

    /// The region to repaint: `invalid` together with what the previous frame
    /// invalidated, which the back buffer still lacks.
    pub closed spec fn damage_spec(&self) -> Seq<Rect> {
        self.damage@
    }

    pub closed spec fn clip_spec(&self) -> Seq<IRect> {
        self.clip@
    }

    pub fn invalid(&self) -> (r: &Region)
        ensures
            r@ == self.invalid_spec(),
    {
        &self.invalid
    }

    pub fn damage(&self) -> (r: &Region)
        ensures
            r@ == self.damage_spec(),
    {
        &self.damage
    }

    /// The damage in device pixels, one rectangle for each damaged rectangle.
    pub fn clip(&self) -> (r: &Vec<IRect>)
        ensures
            r@ == self.clip_spec(),
    {
        &self.clip
    }
}

/// A window: its scale and logical size, the damage since the last frame and
/// the damage of that frame, its timers, and its idle queue.
pub struct Window<C> {
    id: u64,
    scale: Scale,
    size: Size,
    invalid: Region,
    prev_invalid: Region,
    idle_queue: SharedIdleQueue<C>,
    timer_queue: TimerQueue,
}

impl<C> Window<C> {
    pub closed spec fn id_spec(&self) -> u64 {
        self.id
    }

    pub closed spec fn scale_spec(&self) -> Scale {
        self.scale
    }

    pub closed spec fn size_spec(&self) -> Size {
        self.size
    }

    /// The rectangles invalidated since the current frame began.
    pub closed spec fn invalid_spec(&self) -> Seq<Rect> {
        self.invalid@
    }

    /// The rectangles that the last frame repainted as new damage.
    pub closed spec fn prev_invalid_spec(&self) -> Seq<Rect> {
        self.prev_invalid@
    }

    /// The pending timers, in firing order.
    pub closed spec fn timers_spec(&self) -> Seq<Timer> {
        self.timer_queue@
    }

    pub closed spec fn idle_queue_spec(&self) -> SharedIdleQueue<C> {
        self.idle_queue
    }

    /// A window with nothing to repaint, no timers and an empty idle queue,
    /// whose first timer token is `first_token`.
    pub(crate) fn new(id: u64, size: Size, scale: Scale, first_token: u64) -> (r: Window<C>)
        requires
            first_token >= 1,
        ensures
            r.next_token_spec() == first_token,
            r.id_spec() == id,
            r.size_spec() == size,
            r.scale_spec() == scale,
            r.invalid_spec() == Seq::<Rect>::empty(),
            r.prev_invalid_spec() == Seq::<Rect>::empty(),
            r.timers_spec() == Seq::<Timer>::empty(),
    {
        Window {
            id,
            scale,
            size,
            invalid: Region::empty(),
            prev_invalid: Region::empty(),
            idle_queue: new_idle_queue(),
            timer_queue: TimerQueue::starting_at(first_token),
        }
    }

    pub fn id(&self) -> (r: u64)
        ensures
            r == self.id_spec(),
    {
        self.id
    }

    pub fn size(&self) -> (r: Size)
        ensures
            r == self.size_spec(),
    {
        self.size
    }

    pub fn scale(&self) -> (r: Scale)
        ensures
            r == self.scale_spec(),
    {
        self.scale
    }

    /// Hands `handler` this window: `connect` with its handle, then `scale`, then `size`.
    pub fn connect<H: WinHandler<C>>(&self, handler: &mut H) {
        handler.connect(&WindowHandle::with_id(self.id));
        handler.scale(self.scale);
        handler.size(self.size);
    }

    /// The damage invalidated since the current frame began.
    pub fn invalid(&self) -> (r: &Region)
        ensures
            r@ == self.invalid_spec(),
    {
        &self.invalid
    }

    /// The damage that the last frame took as new.
    pub fn prev_invalid(&self) -> (r: &Region)
        ensures
            r@ == self.prev_invalid_spec(),
    {
        &self.prev_invalid
    }

    /// The pending timers, in firing order.
    pub fn timers(&self) -> (r: &TimerQueue)
        ensures
            r@ == self.timers_spec(),
    {
        &self.timer_queue
    }

    /// Adds `rect`, grown outward to the pixel grid, to the damage. A rectangle
    /// without area adds nothing; one with a coordinate beyond `MAX_INPUT_COORD`
    /// is refused.
    pub fn add_invalid_rect(&mut self, rect: Rect) -> (r: Result<(), Error>)
        ensures
            r.is_err() <==> !rect.input_ok(),
            r == Err::<(), Error>(Error::OutOfRange) <==> !rect.input_ok(),
            final(self).invalid_spec() == invalidation_step(
                old(self).invalid_spec(),
                rect,
                old(self).scale_spec(),
            ),
            final(self).id_spec() == old(self).id_spec(),
            final(self).scale_spec() == old(self).scale_spec(),
            final(self).size_spec() == old(self).size_spec(),
            final(self).prev_invalid_spec() == old(self).prev_invalid_spec(),
            final(self).timers_spec() == old(self).timers_spec(),
            final(self).next_token_spec() == old(self).next_token_spec(),
            final(self).idle_queue_spec() == old(self).idle_queue_spec(),
    {
        if !rect.in_input_range() {
            return Err(Error::OutOfRange);
        }
        let grown = rect.expand_to_pixels(self.scale);
        if grown.is_empty() {
            return Ok(());
        }
        proof {
            assert(keeps(grown));
        }
        self.invalid.add_rect(grown);
        Ok(())
    }

    /// Marks `rect` for repainting and asks for a frame. A rectangle out of range
    /// is dropped.
    pub fn invalidate_rect(&mut self, rect: Rect)
        ensures
            final(self).invalid_spec() == invalidation_step(
                old(self).invalid_spec(),
                rect,
                old(self).scale_spec(),
            ),
            final(self).id_spec() == old(self).id_spec(),
            final(self).scale_spec() == old(self).scale_spec(),
            final(self).size_spec() == old(self).size_spec(),
            final(self).prev_invalid_spec() == old(self).prev_invalid_spec(),
            final(self).timers_spec() == old(self).timers_spec(),
            final(self).next_token_spec() == old(self).next_token_spec(),
            final(self).idle_queue_spec() == old(self).idle_queue_spec(),
    {
        let _ = self.add_invalid_rect(rect);
        self.request_anim_frame();
    }

    /// Marks the whole window for repainting.
    pub fn invalidate(&mut self)
        ensures
            final(self).invalid_spec() == invalidation_step(
                old(self).invalid_spec(),
                old(self).size_spec().to_rect_spec(),
                old(self).scale_spec(),
            ),
            final(self).id_spec() == old(self).id_spec(),
            final(self).scale_spec() == old(self).scale_spec(),
            final(self).size_spec() == old(self).size_spec(),
            final(self).prev_invalid_spec() == old(self).prev_invalid_spec(),
            final(self).timers_spec() == old(self).timers_spec(),
            final(self).next_token_spec() == old(self).next_token_spec(),
            final(self).idle_queue_spec() == old(self).idle_queue_spec(),
    {
        self.size.ensure_valid();
        let rect = self.size.to_rect();
        self.invalidate_rect(rect);
    }

    /// Asks the event loop for a frame, through the idle queue.
    pub fn request_anim_frame(&self) {
        self.get_idle_handle().schedule_redraw();
    }

    /// A handle that posts idle work to this window from any thread.
    pub fn get_idle_handle(&self) -> (r: IdleHandle<C>)
        ensures
            r.queue_spec() == self.idle_queue_spec(),
    {
        IdleHandle::new(self.idle_queue.clone())
    }

    /// Takes everything from the idle queue, leaving it empty.
    pub fn take_idle(&self) -> Vec<IdleKind<C>> {
        take_idle_items(&self.idle_queue)
    }

    /// The value of the next timer token this window issues.
    pub closed spec fn next_token_spec(&self) -> u64 {
        self.timer_queue.next_token_spec()
    }

    /// Brings into a proof that the next token is valid and every pending
    /// token is valid and below it.
    pub fn ensure_valid(&self)
        ensures
            self.next_token_spec() >= 1,
            tokens_below(self.timers_spec(), self.next_token_spec()),
            in_firing_order(self.timers_spec()),
    {
        self.timer_queue.ensure_valid();
    }

    /// The value of the next timer token this window issues.
    pub fn next_token(&self) -> (r: u64)
        ensures
            r == self.next_token_spec(),
    {
        self.timer_queue.next_token()
    }

    /// Sets a timer that fires once `deadline` has passed, and returns its
    /// token: larger than every token this window issued before, so unlike any
    /// pending one. Once every token value has been issued it sets nothing and
    /// returns the invalid token.
    pub fn request_timer(&mut self, deadline: Instant) -> (r: TimerToken)
        ensures
            old(self).next_token_spec() == u64::MAX ==> r.id_spec() == 0 && *final(self) == *old(self),
            old(self).next_token_spec() < u64::MAX ==> {
                &&& r.id_spec() == old(self).next_token_spec()
                &&& r.is_valid_spec()
                &&& final(self).next_token_spec() == old(self).next_token_spec() + 1
                &&& exists|i: int|
                    0 <= i <= old(self).timers_spec().len() && final(self).timers_spec() == old(self).timers_spec().insert(i, Timer::spec_new(deadline, r))
                &&& forall|k: int|
                    0 <= k < old(self).timers_spec().len() ==> (#[trigger] old(self).timers_spec()[k]).token_spec().id_spec() < r.id_spec()
            },
            final(self).id_spec() == old(self).id_spec(),
            final(self).scale_spec() == old(self).scale_spec(),
            final(self).size_spec() == old(self).size_spec(),
            final(self).invalid_spec() == old(self).invalid_spec(),
            final(self).prev_invalid_spec() == old(self).prev_invalid_spec(),
            final(self).idle_queue_spec() == old(self).idle_queue_spec(),
    {
        let ghost before = self.timer_queue@;
        let r = self.timer_queue.schedule(deadline);
        proof {
            if old(self).next_token_spec() < u64::MAX {
                let i = choose|i: int|
                    0 <= i <= before.len() && self.timer_queue@ == before.insert(
                        i,
                        Timer::spec_new(deadline, r),
                    );
                assert(0 <= i <= old(self).timers_spec().len() && final(self).timers_spec()
                    == old(self).timers_spec().insert(i, Timer::spec_new(deadline, r)));
                assert forall|k: int| 0 <= k < old(self).timers_spec().len() implies (
                #[trigger] old(self).timers_spec()[k]).token_spec().id_spec() < r.id_spec() by {
                    assert(old(self).timers_spec()[k] == before[k]);
                }
            }
        }
        r
    }

    /// The deadline of the timer that fires first, if any.
    pub fn next_timeout(&self) -> (r: Option<Instant>)
        ensures
            self.timers_spec().len() == 0 ==> r.is_none(),
            self.timers_spec().len() > 0 ==> r == Some(self.timers_spec()[0].deadline_spec()),
    {
        self.timer_queue.next_deadline()
    }

    /// Takes out, in firing order, the timers whose deadline is at or before `now`.
    pub fn take_due_timers(&mut self, now: Instant) -> (r: Vec<Timer>)
        ensures
            r@ + final(self).timers_spec() == old(self).timers_spec(),
            final(self).next_token_spec() == old(self).next_token_spec(),
            forall|k: int| 0 <= k < r@.len() ==> (#[trigger] r@[k]).deadline_spec().nanos <= now.nanos,
            forall|k: int|
                #![trigger final(self).timers_spec()[k]]
                0 <= k < final(self).timers_spec().len() ==> final(self).timers_spec()[k].deadline_spec().nanos
                    > now.nanos,
            in_firing_order(r@),
            final(self).id_spec() == old(self).id_spec(),
            final(self).scale_spec() == old(self).scale_spec(),
            final(self).size_spec() == old(self).size_spec(),
            final(self).invalid_spec() == old(self).invalid_spec(),
            final(self).prev_invalid_spec() == old(self).prev_invalid_spec(),
            final(self).idle_queue_spec() == old(self).idle_queue_spec(),
    {
        self.timer_queue.take_due(now)
    }

    /// Starts a frame: takes the damage invalidated so far, joins to it what the
    /// previous frame invalidated, and gives the joined damage in device pixels,
    /// turned for a portrait display of height `h` where `portrait` is `Some(h)`.
    pub fn begin_paint(&mut self, portrait: Option<i64>) -> (r: Frame)
        requires
            portrait matches Some(h) ==> input_coord_ok(h as int),
        ensures
            r.invalid_spec() == old(self).invalid_spec(),
            r.damage_spec() == old(self).invalid_spec() + old(self).prev_invalid_spec(),
            r.clip_spec() == clip_rects(r.damage_spec(), old(self).scale_spec(), portrait),
            final(self).invalid_spec() == Seq::<Rect>::empty(),
            final(self).prev_invalid_spec() == old(self).prev_invalid_spec(),
            final(self).id_spec() == old(self).id_spec(),
            final(self).scale_spec() == old(self).scale_spec(),
            final(self).size_spec() == old(self).size_spec(),
            final(self).timers_spec() == old(self).timers_spec(),
            final(self).next_token_spec() == old(self).next_token_spec(),
            final(self).idle_queue_spec() == old(self).idle_queue_spec(),
    {
        let invalid = self.invalid.take();
        let mut damage = Region::empty();
        damage.union_with(&invalid);
        damage.union_with(&self.prev_invalid);
        damage.ensure_valid();
        let rects = damage.rects();
        let mut clip: Vec<IRect> = Vec::new();
        let mut i: usize = 0;
        while i < rects.len()
            invariant
                i <= rects@.len(),
                rects@ == damage@,
                forall|k: int| 0 <= k < damage@.len() ==> keeps(#[trigger] damage@[k]),
                clip@ == clip_rects(damage@.subrange(0, i as int), self.scale, portrait),
                portrait matches Some(h) ==> input_coord_ok(h as int),
            decreases rects@.len() - i,
        {
            let r = rects[i];
            proof {
                assert(keeps(damage@[i as int]));
            }
            let p = r.to_px(self.scale);
            let c = match portrait {
                Some(h) => transform_clip_rect(p, h),
                None => p,
            };
            clip.push(c);
            i = i + 1;
            proof {
                let done = damage@.subrange(0, i as int);
                assert(done == damage@.subrange(0, i - 1 as int).push(r));
                assert(clip@ =~= clip_rects(done, self.scale, portrait));
            }
        }
        proof {
            assert(damage@.subrange(0, damage@.len() as int) == damage@);
        }
        Frame { invalid, damage, clip }
    }

    /// Ends a frame: its new damage becomes the damage of the previous frame.
    pub fn end_paint(&mut self, frame: Frame)
        ensures
            final(self).prev_invalid_spec() == frame.invalid_spec(),
            final(self).invalid_spec() == old(self).invalid_spec(),
            final(self).id_spec() == old(self).id_spec(),
            final(self).scale_spec() == old(self).scale_spec(),
            final(self).size_spec() == old(self).size_spec(),
            final(self).timers_spec() == old(self).timers_spec(),
            final(self).next_token_spec() == old(self).next_token_spec(),
            final(self).idle_queue_spec() == old(self).idle_queue_spec(),
    {
        self.prev_invalid = frame.invalid;
    }

    /// Takes the new size of the drawing surface in device pixels and keeps it in
    /// display points. A size too large to hold is refused and nothing changes.
    pub fn screen_size_changed(&mut self, width: u32, height: u32) -> (r: Result<Size, Error>)
        ensures
            match r {
                Ok(sz) => Size::from_px_spec(width, height, old(self).scale_spec()) == Some(sz)
                    && final(self).size_spec() == sz,
                Err(e) => e == Error::OutOfRange && Size::from_px_spec(
                    width,
                    height,
                    old(self).scale_spec(),
                ).is_none() && *final(self) == *old(self),
            },
            final(self).id_spec() == old(self).id_spec(),
            final(self).scale_spec() == old(self).scale_spec(),
            final(self).invalid_spec() == old(self).invalid_spec(),
            final(self).prev_invalid_spec() == old(self).prev_invalid_spec(),
            final(self).timers_spec() == old(self).timers_spec(),
            final(self).next_token_spec() == old(self).next_token_spec(),
            final(self).idle_queue_spec() == old(self).idle_queue_spec(),
    {
        match Size::from_px(width, height, self.scale) {
            Some(size) => {
                self.size = size;
                Ok(size)
            },
            None => Err(Error::OutOfRange),
        }
    }
}

/// The damage after each of `rs` is invalidated in turn, starting from `invalid`.
pub open spec fn after_invalidations(invalid: Seq<Rect>, rs: Seq<Rect>, scale: Scale) -> Seq<Rect>
    decreases rs.len(),
{
    if rs.len() == 0 {
        invalid
    } else {
        invalidation_step(after_invalidations(invalid, rs.drop_last(), scale), rs.last(), scale)
    }
}

/// Between two frames, the damage covers exactly the points of the invalidated
/// rectangles, each grown to the pixel grid, and each grown rectangle covers the
/// rectangle that was invalidated.
pub proof fn lemma_damage_is_union_of_invalidations(rs: Seq<Rect>, scale: Scale, x: int, y: int)
    requires
        scale.valid(),
    ensures
        rects_contain(after_invalidations(Seq::empty(), rs, scale), x, y) <==> exists|i: int|
            0 <= i < rs.len() && counts(rs[i], scale) && (#[trigger] rs[i].expand_spec(scale)).contains(
                x,
                y,
            ),
        forall|i: int|
            0 <= i < rs.len() && counts(rs[i], scale) ==> (#[trigger] rs[i].expand_spec(scale)).covers(
                rs[i],
            ),
    decreases rs.len(),
{
    assert forall|i: int| 0 <= i < rs.len() && counts(rs[i], scale) implies (#[trigger] rs[i].expand_spec(
        scale,
    )).covers(rs[i]) by {
        lemma_expand_covers(rs[i], scale);
    }
    if rs.len() > 0 {
        let init = rs.drop_last();
        let last = rs.last();
        lemma_damage_is_union_of_invalidations(init, scale, x, y);
        let before = after_invalidations(Seq::empty(), init, scale);
        if counts(last, scale) {
            lemma_union_contains(before, seq![last.expand_spec(scale)], x, y);
            assert(before + seq![last.expand_spec(scale)] == before.push(last.expand_spec(scale)));
            if rects_contain(seq![last.expand_spec(scale)], x, y) {
                let k = choose|k: int|
                    0 <= k < 1 && (#[trigger] seq![last.expand_spec(scale)][k]).contains(x, y);
                assert(rs[rs.len() - 1] == last);
            }
            if exists|i: int|
                0 <= i < rs.len() && counts(rs[i], scale) && (#[trigger] rs[i].expand_spec(scale)).contains(
                    x,
                    y,
                ) {
                let i = choose|i: int|
                    0 <= i < rs.len() && counts(rs[i], scale) && (#[trigger] rs[i].expand_spec(
                        scale,
                    )).contains(x, y);
                if i < rs.len() - 1 {
                    assert(init[i] == rs[i]);
                } else {
                    assert(seq![last.expand_spec(scale)][0] == last.expand_spec(scale));
                }
            }
        } else {
            if exists|i: int|
                0 <= i < rs.len() && counts(rs[i], scale) && (#[trigger] rs[i].expand_spec(scale)).contains(
                    x,
                    y,
                ) {
                let i = choose|i: int|
                    0 <= i < rs.len() && counts(rs[i], scale) && (#[trigger] rs[i].expand_spec(
                        scale,
                    )).contains(x, y);
                assert(i < rs.len() - 1);
                assert(init[i] == rs[i]);
            }
        }
        if exists|i: int|
            0 <= i < init.len() && counts(init[i], scale) && (#[trigger] init[i].expand_spec(
                scale,
            )).contains(x, y) {
            let i = choose|i: int|
                0 <= i < init.len() && counts(init[i], scale) && (#[trigger] init[i].expand_spec(
                    scale,
                )).contains(x, y);
            assert(rs[i] == init[i]);
        }
    }
}

/// The damage a frame paints, when only the rectangles `rs` were invalidated
/// since the previous frame began and that frame invalidated `prev`, covers
/// exactly the points of `prev` and of each of `rs` grown to the pixel grid.
pub proof fn lemma_frame_damage_is_union(prev: Seq<Rect>, rs: Seq<Rect>, scale: Scale, x: int, y: int)
    requires
        scale.valid(),
    ensures
        rects_contain(after_invalidations(Seq::empty(), rs, scale) + prev, x, y) <==> (
        rects_contain(prev, x, y) || exists|i: int|
            0 <= i < rs.len() && counts(rs[i], scale) && (#[trigger] rs[i].expand_spec(
                scale,
            )).contains(x, y)),
{
    lemma_damage_is_union_of_invalidations(rs, scale, x, y);
    lemma_union_contains(after_invalidations(Seq::empty(), rs, scale), prev, x, y);
}

/// Invalidating the same rectangle twice with no frame between leaves the same
/// points to repaint as invalidating it once.
pub proof fn lemma_invalidate_twice(invalid: Seq<Rect>, rect: Rect, scale: Scale, x: int, y: int)
    ensures
        rects_contain(
            invalidation_step(invalidation_step(invalid, rect, scale), rect, scale),
            x,
            y,
        ) <==> rects_contain(invalidation_step(invalid, rect, scale), x, y),
{
    if counts(rect, scale) {
        let e = rect.expand_spec(scale);
        let once = invalid.push(e);
        lemma_union_contains(once, seq![e], x, y);
        assert(once + seq![e] == once.push(e));
        if rects_contain(seq![e], x, y) {
            let k = choose|k: int| 0 <= k < 1 && (#[trigger] seq![e][k]).contains(x, y);
            assert(once[once.len() - 1] == e);
        }
    }
}

/// A frame with nothing invalidated, now or in the frame before, repaints no
/// point and clips the surface to nothing, so the surface keeps its contents.
pub proof fn lemma_empty_damage(scale: Scale, portrait: Option<i64>)
    ensures
        clip_rects(Seq::<Rect>::empty() + Seq::<Rect>::empty(), scale, portrait).len() == 0,
        forall|x: int, y: int| !rects_contain(Seq::<Rect>::empty() + Seq::<Rect>::empty(), x, y),
{
    assert(Seq::<Rect>::empty() + Seq::<Rect>::empty() =~= Seq::<Rect>::empty());
}

/// A rectangle invalidated while a frame paints (after the frame took the
/// damage) is owed to the next frame: that frame's damage covers it, grown.
pub proof fn lemma_invalidate_during_paint(
    rect: Rect,
    scale: Scale,
    painted: Seq<Rect>,
    x: int,
    y: int,
)
    requires
        counts(rect, scale),
        rect.expand_spec(scale).contains(x, y),
    ensures
        rects_contain(invalidation_step(Seq::empty(), rect, scale) + painted, x, y),
{
    let next = invalidation_step(Seq::empty(), rect, scale) + painted;
    assert(next[0] == rect.expand_spec(scale));
    assert(next[0].contains(x, y));
}

} // verus!
