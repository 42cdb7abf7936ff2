//! The application: it owns the window and the toolkit's handler, and runs the
//! pump that delivers input, idle work, timers and paints to the handler.
//! Handles name the window by id and resolve it through the application.
use vstd::prelude::*;
use crate::error::Error;
use crate::geometry::{IRect, Scale, Size, input_coord_ok, MAX_INPUT_COORD};
use crate::idle::{IdleDelivery, IdleKind, IdleToken, delivery_of};
use crate::keyboard::{KeyEvent, KeyState, KeyboardInput, key_event_for, key_event_from_input};
use crate::mouse::{
    MouseButton, MouseEvent, NativeMouseButton, convert_mouse_button, is_pointer_event, mouse_event_at,
};
use crate::platform::Clipboard;
use crate::region::Region;
use crate::timer::{Instant, Timer, TimerToken, in_firing_order};
use crate::window::Window;

verus! {

/// A drawing surface that a frame is clipped on.
pub trait PaintContext {
    /// Saves the clip, to be brought back by `restore`.
    fn save(&mut self);

    /// Clips drawing to the union of `rects`, in device pixels.
    fn clip_to(&mut self, rects: &Vec<IRect>);

    /// Brings back the clip saved last.
    fn restore(&mut self);
}

/// The toolkit's receiver of a window's events. Every call but the first three
/// gets the application, through which the handler reaches its window by handle.
pub trait WinHandler<C>: Sized {
    type Paint: PaintContext;

    fn connect(&mut self, handle: &WindowHandle);

    fn scale(&mut self, scale: Scale);

    fn size(&mut self, size: Size);

    fn prepare_paint(&mut self, app: &mut Application<C, Self>);

    fn paint(&mut self, app: &mut Application<C, Self>, ctx: &mut Self::Paint, invalid: &Region);

    fn key_down(&mut self, app: &mut Application<C, Self>, event: KeyEvent) -> bool;

    fn key_up(&mut self, app: &mut Application<C, Self>, event: KeyEvent);

    fn mouse_move(&mut self, app: &mut Application<C, Self>, event: &MouseEvent);

    fn mouse_down(&mut self, app: &mut Application<C, Self>, event: &MouseEvent);

    fn mouse_up(&mut self, app: &mut Application<C, Self>, event: &MouseEvent);

    fn timer(&mut self, app: &mut Application<C, Self>, token: TimerToken);

    fn idle(&mut self, app: &mut Application<C, Self>, token: IdleToken);

    /// Runs a callback posted through an idle handle.
    fn idle_callback(&mut self, app: &mut Application<C, Self>, callback: C);
}

/// A reference to a window by id. It never keeps the window alive: once the
/// window is gone every operation does nothing or returns its sentinel.
#[derive(Clone, Copy, Debug, Default, PartialEq, Eq, Hash, Structural)]
pub struct WindowHandle {
    id: u64,
}

impl WindowHandle {
    pub closed spec fn id_spec(&self) -> u64 {
        self.id
    }

    /// The id of the window that the handle names.
    pub fn id(&self) -> (r: u64)
        ensures
            r == self.id_spec(),
    {
        self.id
    }

    /// The handle of the window with id `id`.
    pub fn with_id(id: u64) -> (r: WindowHandle)
        ensures
            r.id_spec() == id,
    {
        WindowHandle { id }
    }
}

/// The application: at most one window and the handler of that window. It
/// also keeps the next timer token of windows it has dropped, so that a later
/// window issues none of their tokens again.
pub struct Application<C, H> {
    window: Option<Window<C>>,
    handler: Option<H>,
    next_window_id: u64,
    token_floor: u64,
    quitting: bool,
}

/// The tokens of `timers`, in order.
pub open spec fn tokens_of(timers: Seq<Timer>) -> Seq<TimerToken> {
    timers.map_values(|t: Timer| t.token_spec())
}

/// `due` and `rest` split `q`: `due` holds the timers whose deadline is at or
/// before `now`, in firing order, and `rest` the others.
pub open spec fn due_split(q: Seq<Timer>, now: Instant, due: Seq<Timer>, rest: Seq<Timer>) -> bool {
    &&& q == due + rest
    &&& forall|k: int| 0 <= k < due.len() ==> (#[trigger] due[k]).deadline_spec().nanos <= now.nanos
    &&& forall|k: int| 0 <= k < rest.len() ==> (#[trigger] rest[k]).deadline_spec().nanos > now.nanos
    &&& in_firing_order(due)
}

impl<C, H> Application<C, H> {
    pub closed spec fn window_spec(&self) -> Option<Window<C>> {
        self.window
    }

    pub closed spec fn handler_spec(&self) -> Option<H> {
        self.handler
    }

    /// A bound at or above every timer token issued by a window that is gone.
    pub closed spec fn token_floor_spec(&self) -> u64 {
        self.token_floor
    }

    pub closed spec fn quitting_spec(&self) -> bool {
        self.quitting
    }

    pub closed spec fn next_window_id_spec(&self) -> u64 {
        self.next_window_id
    }

    /// The handle names the window that the application holds.
    pub open spec fn resolves(&self, handle: WindowHandle) -> bool {
        self.window_spec() matches Some(w) && w.id_spec() == handle.id_spec()
    }

    /// `self` and `other` differ at most in their window.
    pub open spec fn same_but_window(&self, other: &Self) -> bool {
        &&& self.handler_spec() == other.handler_spec()
        &&& self.token_floor_spec() == other.token_floor_spec()
        &&& self.quitting_spec() == other.quitting_spec()
        &&& self.next_window_id_spec() == other.next_window_id_spec()
    }

    /// `self` and `other` hold the same state.
    pub open spec fn same_as(&self, other: &Self) -> bool {
        &&& self.window_spec() == other.window_spec()
        &&& self.same_but_window(other)
    }

    /// `self` and `other` differ at most in their window and handler.
    pub open spec fn same_but_window_and_handler(&self, other: &Self) -> bool {
        &&& self.token_floor_spec() == other.token_floor_spec()
        &&& self.quitting_spec() == other.quitting_spec()
        &&& self.next_window_id_spec() == other.next_window_id_spec()
    }

    /// An application with no window yet.
    pub fn new() -> (r: Application<C, H>)
        ensures
            r.window_spec().is_none(),
            r.handler_spec().is_none(),
            !r.quitting_spec(),
            r.next_window_id_spec() == 1,
            r.token_floor_spec() == 1,
    {
        Application {
            window: None,
            handler: None,
            next_window_id: 1,
            token_floor: 1,
            quitting: false,
        }
    }

    /// Takes `window` and its handler in place of any held before. The window
    /// must issue no timer token that a window before it has issued.
    pub fn add_window(&mut self, window: Window<C>, handler: H)
        requires
            window.next_token_spec() >= old(self).token_floor_spec(),
            old(self).window_spec() matches Some(w) ==> window.next_token_spec()
                >= w.next_token_spec(),
        ensures
            final(self).window_spec() == Some(window),
            final(self).handler_spec() == Some(handler),
            final(self).token_floor_spec() >= old(self).token_floor_spec(),
            old(self).window_spec() matches Some(w) ==> final(self).token_floor_spec()
                >= w.next_token_spec(),
            final(self).quitting_spec() == old(self).quitting_spec(),
            final(self).next_window_id_spec() == old(self).next_window_id_spec(),
    {
        self.token_floor = self.fresh_token_start();
        self.window = Some(window);
        self.handler = Some(handler);
    }

    /// The window, if one is held.
    pub fn window(&self) -> (r: Option<&Window<C>>)
        ensures
            match self.window_spec() {
                Some(w) => r == Some(&w),
                None => r.is_none(),
            },
    {
        match &self.window {
            Some(w) => Some(w),
            None => None,
        }
    }

    /// The handler, unless it is busy with a call or there is none.
    pub fn handler(&self) -> (r: Option<&H>)
        ensures
            match self.handler_spec() {
                Some(h) => r == Some(&h),
                None => r.is_none(),
            },
    {
        match &self.handler {
            Some(h) => Some(h),
            None => None,
        }
    }

    /// A handle of the window, if one is held.
    pub fn window_handle(&self) -> (r: Option<WindowHandle>)
        ensures
            match self.window_spec() {
                Some(w) => r matches Some(h) && h.id_spec() == w.id_spec(),
                None => r.is_none(),
            },
    {
        match &self.window {
            Some(w) => Some(WindowHandle { id: w.id() }),
            None => None,
        }
    }

    /// The slot that holds the window.
    pub(crate) fn window_slot(&mut self) -> (r: &mut Option<Window<C>>)
        ensures
            *r == old(self).window_spec(),
            final(self).window_spec() == *final(r),
            final(self).handler_spec() == old(self).handler_spec(),
            final(self).token_floor_spec() == old(self).token_floor_spec(),
            final(self).quitting_spec() == old(self).quitting_spec(),
            final(self).next_window_id_spec() == old(self).next_window_id_spec(),
    {
        &mut self.window
    }

    /// The first timer token for a new window: past every token that the
    /// window held now, or any dropped before, has issued.
    pub fn fresh_token_start(&self) -> (r: u64)
        ensures
            r >= 1,
            r >= self.token_floor_spec(),
            self.window_spec() matches Some(w) ==> r >= w.next_token_spec(),
    {
        let mut start = self.token_floor;
        match &self.window {
            Some(w) => {
                if w.next_token() > start {
                    start = w.next_token();
                }
            },
            None => {},
        }
        if start == 0 {
            1
        } else {
            start
        }
    }

    /// Drops the window and its handler.
    pub fn remove_window(&mut self)
        ensures
            final(self).window_spec().is_none(),
            final(self).handler_spec().is_none(),
            final(self).token_floor_spec() >= old(self).token_floor_spec(),
            old(self).window_spec() matches Some(w) ==> final(self).token_floor_spec()
                >= w.next_token_spec(),
            final(self).quitting_spec() == old(self).quitting_spec(),
            final(self).next_window_id_spec() == old(self).next_window_id_spec(),
    {
        self.token_floor = self.fresh_token_start();
        self.window = None;
        self.handler = None;
    }

    /// A fresh window id, or `None` once every id has been used.
    pub(crate) fn new_window_id(&mut self) -> (r: Option<u64>)
        ensures
            old(self).next_window_id_spec() < u64::MAX ==> r == Some(
                old(self).next_window_id_spec(),
            ) && final(self).next_window_id_spec() == old(self).next_window_id_spec() + 1,
            old(self).next_window_id_spec() == u64::MAX ==> r.is_none()
                && final(self).next_window_id_spec() == old(self).next_window_id_spec(),
            final(self).window_spec() == old(self).window_spec(),
            final(self).handler_spec() == old(self).handler_spec(),
            final(self).token_floor_spec() == old(self).token_floor_spec(),
            final(self).quitting_spec() == old(self).quitting_spec(),
    {
        if self.next_window_id == u64::MAX {
            None
        } else {
            let id = self.next_window_id;
            self.next_window_id = self.next_window_id + 1;
            Some(id)
        }
    }

    /// Asks the event loop to stop; once asked, it stays asked.
    pub fn quit(&mut self)
        ensures
            final(self).quitting_spec(),
            final(self).window_spec() == old(self).window_spec(),
            final(self).handler_spec() == old(self).handler_spec(),
            final(self).token_floor_spec() == old(self).token_floor_spec(),
            final(self).next_window_id_spec() == old(self).next_window_id_spec(),
    {
        self.quitting = true;
    }

    pub fn is_quitting(&self) -> (r: bool)
        ensures
            r == self.quitting_spec(),
    {
        self.quitting
    }

    /// The system clipboard.
    pub fn clipboard(&self) -> Clipboard {
        Clipboard
    }

    /// The locale of the user interface.
    pub fn get_locale() -> (r: String)
        ensures
            r@ == "en-US"@,
    {
        proof {
            reveal_strlit("en-US");
        }
        String::from_str("en-US")
    }
}

impl<C, H: WinHandler<C>> Application<C, H> {
    /// Hands the handler its window: `connect`, then `scale`, then `size`.
    pub fn connect(&mut self) -> (r: bool)
        ensures
            r == (old(self).window_spec().is_some() && old(self).handler_spec().is_some()),
            final(self).window_spec() == old(self).window_spec(),
            final(self).handler_spec().is_some() == old(self).handler_spec().is_some(),
            final(self).token_floor_spec() == old(self).token_floor_spec(),
            final(self).quitting_spec() == old(self).quitting_spec(),
            final(self).next_window_id_spec() == old(self).next_window_id_spec(),
    {
        match &self.window {
            Some(w) => match &mut self.handler {
                Some(h) => {
                    w.connect(h);
                    true
                },
                None => false,
            },
            None => false,
        }
    }

    /// Takes the handler out of its slot for one call. While it is out, further
    /// calls into it find the slot empty and are dropped: a handler is never
    /// entered twice.
    fn take_handler(&mut self) -> (r: Option<H>)
        ensures
            r == old(self).handler_spec(),
            final(self).handler_spec().is_none(),
            final(self).window_spec() == old(self).window_spec(),
            final(self).token_floor_spec() == old(self).token_floor_spec(),
            final(self).quitting_spec() == old(self).quitting_spec(),
            final(self).next_window_id_spec() == old(self).next_window_id_spec(),
    {
        self.handler.take()
    }

    /// Drains the idle queue and delivers what it held, as `deliver_idle` does,
    /// returning what was done with each item. Items posted meanwhile wait for
    /// the next call. Nothing is taken while the handler is busy or there is no
    /// window.
    pub fn run_idle(&mut self) -> (r: Vec<IdleDelivery>)
        ensures
            old(self).handler_spec().is_none() || old(self).window_spec().is_none() ==> r@.len()
                == 0 && *final(self) == *old(self),
            old(self).handler_spec().is_some() && old(self).window_spec().is_some()
                ==> final(self).handler_spec().is_some(),
    {
        if self.handler.is_none() {
            return Vec::new();
        }
        let items = match &self.window {
            Some(w) => w.take_idle(),
            None => {
                return Vec::new();
            },
        };
        self.deliver_idle(items)
    }

    /// Delivers each item once, in order: a callback to `idle_callback`, a token
    /// to `idle`; a redraw request calls nothing. Returns what was done with
    /// each item, one entry per item in the same order. While the handler is
    /// busy nothing is delivered.
    pub fn deliver_idle(&mut self, items: Vec<IdleKind<C>>) -> (r: Vec<IdleDelivery>)
        ensures
            old(self).handler_spec().is_none() ==> r@.len() == 0 && *final(self) == *old(self),
            old(self).handler_spec().is_some() ==> r@ == items@.map_values(
                |i: IdleKind<C>| delivery_of(i),
            ),
            old(self).handler_spec().is_some() ==> final(self).handler_spec().is_some(),
    {
        let mut handler = match self.take_handler() {
            Some(h) => h,
            None => {
                return Vec::new();
            },
        };
        let ghost all = items@;
        let mut delivered: Vec<IdleDelivery> = Vec::new();
        let mut items = items;
        let ghost mut done: int = 0;
        while items.len() > 0
            invariant
                0 <= done <= all.len(),
                items@ == all.subrange(done, all.len() as int),
                delivered@ == all.subrange(0, done).map_values(|i: IdleKind<C>| delivery_of(i)),
            decreases items@.len(),
        {
            let ghost head = items@[0];
            proof {
                assert(head == all[done]);
            }
            let d = match items.remove(0) {
                IdleKind::Callback(f) => {
                    handler.idle_callback(self, f);
                    IdleDelivery::Callback
                },
                IdleKind::Token(tok) => {
                    handler.idle(self, tok);
                    IdleDelivery::Token(tok)
                },
                IdleKind::Redraw => IdleDelivery::Redraw,
            };
            delivered.push(d);
            proof {
                done = done + 1;
                assert(items@ =~= all.subrange(done, all.len() as int));
                assert(all.subrange(0, done) == all.subrange(0, done - 1).push(head));
                assert(delivered@ =~= all.subrange(0, done).map_values(
                    |i: IdleKind<C>| delivery_of(i),
                ));
            }
        }
        proof {
            assert(all.subrange(0, done) == all);
        }
        self.handler = Some(handler);
        delivered
    }

    /// Delivers, in firing order, the token of every timer whose deadline is at
    /// or before `now`, and returns the tokens delivered. Timers set while they
    /// are delivered wait for the next call. Nothing is taken while the handler
    /// is busy or there is no window.
    pub fn run_timers(&mut self, now: Instant) -> (r: Vec<TimerToken>)
        ensures
            old(self).handler_spec().is_none() || old(self).window_spec().is_none() ==> r@.len()
                == 0 && *final(self) == *old(self),
            old(self).handler_spec().is_some() && old(self).window_spec().is_some() ==> exists|
                due: Seq<Timer>,
                rest: Seq<Timer>,
            |
                due_split(old(self).window_spec().unwrap().timers_spec(), now, due, rest) && r@
                    == tokens_of(due),
    {
        if self.handler.is_none() {
            return Vec::new();
        }
        let due = match &mut self.window {
            Some(w) => w.take_due_timers(now),
            None => {
                return Vec::new();
            },
        };
        let ghost rest = self.window.unwrap().timers_spec();
        let mut handler = match self.take_handler() {
            Some(h) => h,
            None => {
                return Vec::new();
            },
        };
        let mut delivered: Vec<TimerToken> = Vec::new();
        let mut i: usize = 0;
        while i < due.len()
            invariant
                i <= due@.len(),
                delivered@ == tokens_of(due@.subrange(0, i as int)),
            decreases due@.len() - i,
        {
            let token = due[i].token();
            handler.timer(self, token);
            delivered.push(token);
            i = i + 1;
            proof {
                assert(due@.subrange(0, i as int) == due@.subrange(0, i - 1 as int).push(due@[i - 1]));
                assert(delivered@ =~= tokens_of(due@.subrange(0, i as int)));
            }
        }
        self.handler = Some(handler);
        proof {
            assert(due@.subrange(0, due@.len() as int) == due@);
            assert(due_split(old(self).window_spec().unwrap().timers_spec(), now, due@, rest));
        }
        delivered
    }

    /// Paints a frame: `prepare_paint`, then the damage is taken and joined to
    /// the previous frame's, the surface is clipped to it, `paint` draws, and
    /// the clip is restored. `portrait` gives the height of a display mounted in
    /// portrait, whose clip is turned. Returns whether `paint` was called; it is
    /// not while the handler is busy or there is no window.
    pub fn render(&mut self, ctx: &mut H::Paint, portrait: Option<i64>) -> (r: bool)
        requires
            portrait matches Some(h) ==> input_coord_ok(h as int),
        ensures
            old(self).handler_spec().is_none() || old(self).window_spec().is_none() ==> !r
                && *final(self) == *old(self),
            old(self).handler_spec().is_some() && old(self).window_spec().is_some()
                ==> final(self).handler_spec().is_some(),
            old(self).handler_spec().is_some() && old(self).window_spec().is_some() && !r
                ==> final(self).window_spec().is_none(),
    {
        if self.handler.is_none() || self.window.is_none() {
            return false;
        }
        let mut handler = match self.take_handler() {
            Some(h) => h,
            None => {
                return false;
            },
        };
        handler.prepare_paint(self);
        let (id, frame) = match &mut self.window {
            Some(w) => (w.id(), w.begin_paint(portrait)),
            None => {
                self.handler = Some(handler);
                return false;
            },
        };
        ctx.save();
        ctx.clip_to(frame.clip());
        handler.paint(self, ctx, frame.damage());
        ctx.restore();
        match &mut self.window {
            Some(w) => {
                if w.id() == id {
                    w.end_paint(frame);
                }
            },
            None => {},
        }
        self.handler = Some(handler);
        true
    }

    /// Takes the new size of the drawing surface in device pixels, keeps it in
    /// display points, and hands it to the handler.
    pub fn screen_size_changed(&mut self, width: u32, height: u32) -> (r: Result<(), Error>)
        ensures
            old(self).window_spec().is_none() ==> r.is_ok() && *final(self) == *old(self),
            match old(self).window_spec() {
                Some(w) => match Size::from_px_spec(width, height, w.scale_spec()) {
                    None => r == Err::<(), Error>(Error::OutOfRange) && final(self).same_as(
                        old(self),
                    ),
                    Some(sz) => {
                        &&& r.is_ok()
                        &&& final(self).window_spec() matches Some(fw) && {
                            &&& fw.size_spec() == sz
                            &&& fw.id_spec() == w.id_spec()
                            &&& fw.scale_spec() == w.scale_spec()
                            &&& fw.invalid_spec() == w.invalid_spec()
                            &&& fw.prev_invalid_spec() == w.prev_invalid_spec()
                            &&& fw.timers_spec() == w.timers_spec()
                            &&& fw.idle_queue_spec() == w.idle_queue_spec()
                        }
                        &&& final(self).same_but_window_and_handler(old(self))
                        &&& final(self).handler_spec().is_some() == old(self).handler_spec().is_some()
                    },
                },
                None => true,
            },
    {
        let size = match &mut self.window {
            Some(w) => w.screen_size_changed(width, height),
            None => {
                return Ok(());
            },
        };
        match size {
            Ok(sz) => {
                match &mut self.handler {
                    Some(h) => h.size(sz),
                    None => {},
                }
                Ok(())
            },
            Err(e) => Err(e),
        }
    }

    /// Delivers a native key event to the handler: `key_down` for a press,
    /// `key_up` for a release. Returns the event delivered, or `None` while the
    /// handler is busy.
    pub fn handle_key_press(&mut self, input: KeyboardInput) -> (r: Option<KeyEvent>)
        ensures
            r.is_some() == old(self).handler_spec().is_some(),
            r matches Some(e) ==> e == key_event_for(input) && final(self).handler_spec().is_some(),
            r.is_none() ==> *final(self) == *old(self),
    {
        let event = key_event_from_input(input);
        let mut handler = match self.take_handler() {
            Some(h) => h,
            None => {
                return None;
            },
        };
        match event.state {
            KeyState::Down => {
                handler.key_down(self, event);
            },
            KeyState::Up => {
                handler.key_up(self, event);
            },
        }
        self.handler = Some(handler);
        Some(event)
    }

    /// The mouse event for a native pointer position, or `None` without a window.
    fn pointer_event(&self, px: i64, py: i64, button: MouseButton, count: u8) -> (r: Option<
        MouseEvent,
    >)
        requires
            input_coord_ok(px as int),
            input_coord_ok(py as int),
        ensures
            r.is_some() == self.window_spec().is_some(),
            r matches Some(e) ==> is_pointer_event(
                e,
                px,
                py,
                self.window_spec().unwrap().scale_spec(),
                button,
                count,
            ),
    {
        match &self.window {
            Some(w) => Some(mouse_event_at(px, py, w.scale(), button, count)),
            None => None,
        }
    }

    /// Delivers pointer motion at device pixel `(px, py)` to the handler's
    /// `mouse_move`, with no button and a count of zero. Returns the event
    /// delivered; nothing is delivered while the handler is busy, without a
    /// window, or for a position beyond `MAX_INPUT_COORD`.
    pub fn handle_motion_notify(&mut self, px: i64, py: i64) -> (r: Option<MouseEvent>)
        ensures
            r.is_some() == (old(self).handler_spec().is_some() && old(self).window_spec().is_some()
                && input_coord_ok(px as int) && input_coord_ok(py as int)),
            r matches Some(e) ==> is_pointer_event(
                e,
                px,
                py,
                old(self).window_spec().unwrap().scale_spec(),
                MouseButton::NoButton,
                0,
            ) && final(self).handler_spec().is_some(),
            r.is_none() ==> *final(self) == *old(self),
    {
        if !in_input_range(px) || !in_input_range(py) {
            return None;
        }
        let event = match self.pointer_event(px, py, MouseButton::NoButton, 0) {
            Some(e) => e,
            None => {
                return None;
            },
        };
        let mut handler = match self.take_handler() {
            Some(h) => h,
            None => {
                return None;
            },
        };
        handler.mouse_move(self, &event);
        self.handler = Some(handler);
        Some(event)
    }

    /// Delivers a press of a native button at device pixel `(px, py)` to the
    /// handler's `mouse_down`, with a count of one. Returns the event delivered;
    /// buttons past the third are dropped, and nothing is delivered while the
    /// handler is busy, without a window, or for a position out of range.
    pub fn handle_button_press(&mut self, px: i64, py: i64, button: NativeMouseButton) -> (r:
        Option<MouseEvent>)
        ensures
            r.is_some() == (old(self).handler_spec().is_some() && old(self).window_spec().is_some()
                && input_coord_ok(px as int) && input_coord_ok(py as int)
                && convert_mouse_button_spec(button).is_some()),
            r matches Some(e) ==> is_pointer_event(
                e,
                px,
                py,
                old(self).window_spec().unwrap().scale_spec(),
                convert_mouse_button_spec(button).unwrap(),
                1,
            ) && final(self).handler_spec().is_some(),
            r.is_none() ==> *final(self) == *old(self),
    {
        self.deliver_button(px, py, button, true)
    }

    /// Delivers a release of a native button at device pixel `(px, py)` to the
    /// handler's `mouse_up`, with a count of zero. Returns the event delivered;
    /// buttons past the third are dropped, and nothing is delivered while the
    /// handler is busy, without a window, or for a position out of range.
    pub fn handle_button_release(&mut self, px: i64, py: i64, button: NativeMouseButton) -> (r:
        Option<MouseEvent>)
        ensures
            r.is_some() == (old(self).handler_spec().is_some() && old(self).window_spec().is_some()
                && input_coord_ok(px as int) && input_coord_ok(py as int)
                && convert_mouse_button_spec(button).is_some()),
            r matches Some(e) ==> is_pointer_event(
                e,
                px,
                py,
                old(self).window_spec().unwrap().scale_spec(),
                convert_mouse_button_spec(button).unwrap(),
                0,
            ) && final(self).handler_spec().is_some(),
            r.is_none() ==> *final(self) == *old(self),
    {
        self.deliver_button(px, py, button, false)
    }

    fn deliver_button(&mut self, px: i64, py: i64, button: NativeMouseButton, down: bool) -> (r:
        Option<MouseEvent>)
        ensures
            r.is_some() == (old(self).handler_spec().is_some() && old(self).window_spec().is_some()
                && input_coord_ok(px as int) && input_coord_ok(py as int)
                && convert_mouse_button_spec(button).is_some()),
            r matches Some(e) ==> is_pointer_event(
                e,
                px,
                py,
                old(self).window_spec().unwrap().scale_spec(),
                convert_mouse_button_spec(button).unwrap(),
                if down { 1u8 } else { 0u8 },
            ) && final(self).handler_spec().is_some(),
            r.is_none() ==> *final(self) == *old(self),
    {
        let b = match convert_mouse_button(button) {
            Some(b) => b,
            None => {
                return None;
            },
        };
        if !in_input_range(px) || !in_input_range(py) {
            return None;
        }
        let count: u8 = if down { 1 } else { 0 };
        let event = match self.pointer_event(px, py, b, count) {
            Some(e) => e,
            None => {
                return None;
            },
        };
        let mut handler = match self.take_handler() {
            Some(h) => h,
            None => {
                return None;
            },
        };
        if down {
            handler.mouse_down(self, &event);
        } else {
            handler.mouse_up(self, &event);
        }
        self.handler = Some(handler);
        Some(event)
    }
}

/// The toolkit's button for a native button, as `convert_mouse_button` gives it.
pub open spec fn convert_mouse_button_spec(b: NativeMouseButton) -> Option<MouseButton> {
    match b {
        NativeMouseButton::Left => Some(MouseButton::Left),
        NativeMouseButton::Right => Some(MouseButton::Right),
        NativeMouseButton::Middle => Some(MouseButton::Middle),
        NativeMouseButton::Other(_) => None,
    }
}

fn in_input_range(v: i64) -> (r: bool)
    ensures
        r == input_coord_ok(v as int),
{
    -MAX_INPUT_COORD <= v && v <= MAX_INPUT_COORD
}

} // verus!
