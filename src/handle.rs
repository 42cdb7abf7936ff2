//! The toolkit's control surface over a window: the operations of a window
//! handle, and the builder that makes a window.
use vstd::prelude::*;
use crate::application::Application;
use crate::application::WinHandler;
use crate::application::WindowHandle;
use crate::error::{Error, ShellError};
use crate::geometry::{Point, Rect, Scale, Size, UNIT_SCALE};
use crate::idle::IdleHandle;
use crate::platform::{
    Cursor, CursorDesc, FileDialogOptions, FileDialogToken, FileDialogType, Menu, TextContext,
    WindowLevel, WindowState,
};
use crate::timer::{Instant, Timer, TimerToken};
use crate::window::{Window, invalidation_step};

verus! {

impl WindowHandle {
    /// Shows the window; it is always shown.
    pub fn show(&self) {
    }

    /// Ignored by this platform.
    pub fn resizable(&self, resizable: bool) {
    }

    /// Ignored by this platform.
    pub fn show_titlebar(&self, show_titlebar: bool) {
    }

    /// Ignored by this platform.
    pub fn set_position(&self, position: Point) {
    }

    /// Ignored by this platform.
    pub fn set_level(&self, level: WindowLevel) {
    }

    /// Not tracked by this platform: always the origin.
    pub fn get_position(&self) -> (r: Point)
        ensures
            r == (Point { x: 0, y: 0 }),
    {
        Point::zero()
    }

    /// Ignored by this platform.
    pub fn set_size(&self, size: Size) {
    }

    /// Not tracked by this platform: always empty.
    pub fn get_size(&self) -> (r: Size)
        ensures
            r.width_spec() == 0 && r.height_spec() == 0,
    {
        Size::zero()
    }

    /// Ignored by this platform.
    pub fn set_window_state(&self, state: WindowState) {
    }

    /// Not tracked by this platform: always restored.
    pub fn get_window_state(&self) -> (r: WindowState)
        ensures
            r == WindowState::Restored,
    {
        WindowState::Restored
    }

    /// Ignored by this platform.
    pub fn handle_titlebar(&self, val: bool) {
    }

    /// Closes the window: the application drops it and its handler. A handle of
    /// a window that is gone changes nothing.
    pub fn close<C, H>(&self, app: &mut Application<C, H>)
        ensures
            old(app).resolves(*self) ==> {
                &&& final(app).window_spec().is_none()
                &&& final(app).handler_spec().is_none()
                &&& final(app).quitting_spec() == old(app).quitting_spec()
                &&& final(app).next_window_id_spec() == old(app).next_window_id_spec()
                &&& final(app).token_floor_spec() >= old(app).window_spec().unwrap().next_token_spec()
            },
            !old(app).resolves(*self) ==> final(app).same_as(old(app)),
    {
        let found = match app.window() {
            Some(w) => w.id() == self.id(),
            None => false,
        };
        if found {
            app.remove_window();
        }
    }

    /// Ignored by this platform.
    pub fn bring_to_front_and_focus(&self) {
    }

    /// Asks for the next frame. A handle of a window that is gone does nothing.
    pub fn request_anim_frame<C, H>(&self, app: &Application<C, H>) {
        match app.window() {
            Some(w) => {
                if w.id() == self.id() {
                    w.request_anim_frame();
                }
            },
            None => {},
        }
    }

    /// Marks `rect` of the window for repainting. A handle of a window that is
    /// gone changes nothing.
    pub fn invalidate_rect<C, H>(&self, app: &mut Application<C, H>, rect: Rect)
        ensures
            old(app).resolves(*self) ==> final(app).resolves(*self) && final(app).window_spec().unwrap().invalid_spec() == invalidation_step(
                old(app).window_spec().unwrap().invalid_spec(),
                rect,
                old(app).window_spec().unwrap().scale_spec(),
            ) && final(app).same_but_window(old(app)),
            !old(app).resolves(*self) ==> final(app).same_as(old(app)),
    {
        let slot = app.window_slot();
        match slot {
            Some(w) => {
                if w.id() == self.id() {
                    w.invalidate_rect(rect);
                }
            },
            None => {},
        }
    }

    /// Marks the whole window for repainting. A handle of a window that is gone
    /// changes nothing.
    pub fn invalidate<C, H>(&self, app: &mut Application<C, H>)
        ensures
            old(app).resolves(*self) ==> final(app).resolves(*self) && final(app).window_spec().unwrap().invalid_spec() == invalidation_step(
                old(app).window_spec().unwrap().invalid_spec(),
                old(app).window_spec().unwrap().size_spec().to_rect_spec(),
                old(app).window_spec().unwrap().scale_spec(),
            ) && final(app).same_but_window(old(app)),
            !old(app).resolves(*self) ==> final(app).same_as(old(app)),
    {
        let slot = app.window_slot();
        match slot {
            Some(w) => {
                if w.id() == self.id() {
                    w.invalidate();
                }
            },
            None => {},
        }
    }

    /// The text services of the window. They need no window, so a handle of a
    /// window that is gone gets them too.
    pub fn text(&self) -> (r: TextContext) {
        TextContext
    }

    /// Sets a timer that fires once `deadline` has passed, and returns its token,
    /// which is unlike every pending one. A handle of a window that is gone, or
    /// a window out of tokens, sets nothing and returns the invalid token.
    pub fn request_timer<C, H>(&self, app: &mut Application<C, H>, deadline: Instant) -> (r:
        TimerToken)
        ensures
            !old(app).resolves(*self) ==> r.id_spec() == 0 && final(app).same_as(old(app)),
            old(app).resolves(*self) ==> {
                let w = old(app).window_spec().unwrap();
                let fw = final(app).window_spec().unwrap();
                &&& final(app).resolves(*self)
                &&& final(app).same_but_window(old(app))
                &&& w.next_token_spec() == u64::MAX ==> r.id_spec() == 0 && fw == w
                &&& w.next_token_spec() < u64::MAX ==> {
                    &&& r.id_spec() == w.next_token_spec()
                    &&& r.is_valid_spec()
                    &&& fw.next_token_spec() == w.next_token_spec() + 1
                    &&& exists|i: int|
                        0 <= i <= w.timers_spec().len() && fw.timers_spec()
                            == w.timers_spec().insert(i, Timer::spec_new(deadline, r))
                    &&& forall|k: int|
                        0 <= k < w.timers_spec().len() ==> (#[trigger] w.timers_spec()[k]).token_spec().id_spec()
                            < r.id_spec()
                }
            },
    {
        let slot = app.window_slot();
        match slot {
            Some(w) => {
                if w.id() == self.id() {
                    w.request_timer(deadline)
                } else {
                    TimerToken::invalid()
                }
            },
            None => TimerToken::invalid(),
        }
    }

    /// Cursors are not shown by this platform.
    pub fn set_cursor(&mut self, cursor: &Cursor) {
    }

    /// Custom cursors are not supported: always `None`.
    pub fn make_cursor(&self, cursor_desc: &CursorDesc) -> (r: Option<Cursor>)
        ensures
            r.is_none(),
    {
        None
    }

    /// File dialogs are not supported: always `None`.
    pub fn open_file(&mut self, options: FileDialogOptions) -> (r: Option<FileDialogToken>)
        ensures
            r.is_none(),
    {
        None
    }

    /// File dialogs are not supported: always `None`.
    pub fn save_as(&mut self, options: FileDialogOptions) -> (r: Option<FileDialogToken>)
        ensures
            r.is_none(),
    {
        None
    }

    /// File dialogs are not supported: always the unimplemented error.
    pub fn file_dialog(&self, ty: FileDialogType, options: FileDialogOptions) -> (r: Result<
        String,
        ShellError,
    >)
        ensures
            r == Err::<String, ShellError>(ShellError::Platform(Error::Unimplemented)),
    {
        Err(ShellError::Platform(Error::Unimplemented))
    }

    /// A handle that posts idle work to the window from any thread, or `None`
    /// once the window is gone.
    pub fn get_idle_handle<C, H>(&self, app: &Application<C, H>) -> (r: Option<IdleHandle<C>>)
        ensures
            r.is_some() == app.resolves(*self),
            r matches Some(h) ==> h.queue_spec() == app.window_spec().unwrap().idle_queue_spec(),
    {
        match app.window() {
            Some(w) => {
                if w.id() == self.id() {
                    Some(w.get_idle_handle())
                } else {
                    None
                }
            },
            None => None,
        }
    }

    /// Not implemented by this platform: always the unimplemented error.
    pub fn get_scale(&self) -> (r: Result<Scale, ShellError>)
        ensures
            r == Err::<Scale, ShellError>(ShellError::Platform(Error::Unimplemented)),
    {
        Err(ShellError::Platform(Error::Unimplemented))
    }

    /// Menus are not shown by this platform.
    pub fn set_menu(&self, menu: Menu) {
    }

    /// Menus are not shown by this platform.
    pub fn show_context_menu(&self, menu: Menu, pos: Point) {
    }

    /// Not implemented by this platform: always the unimplemented error.
    pub fn set_title(&self, title: &str) -> (r: Result<(), ShellError>)
        ensures
            r == Err::<(), ShellError>(ShellError::Platform(Error::Unimplemented)),
    {
        Err(ShellError::Platform(Error::Unimplemented))
    }
}

/// The default width of a window, in thousandths of a display point.
pub const DEFAULT_WIDTH: i64 = 800_000;

/// The default height of a window, in thousandths of a display point.
pub const DEFAULT_HEIGHT: i64 = 600_000;

/// Gathers what a window is made with, then makes it.
pub struct WindowBuilder<H> {
    handler: Option<H>,
    title: String,
    menu: Option<Menu>,
    size: Size,
    scale: Scale,
}

impl<H> WindowBuilder<H> {
    pub closed spec fn handler_spec(&self) -> Option<H> {
        self.handler
    }

    pub closed spec fn size_spec(&self) -> Size {
        self.size
    }

    pub closed spec fn scale_spec(&self) -> Scale {
        self.scale
    }

    pub closed spec fn title_spec(&self) -> Seq<char> {
        self.title@
    }

    /// A builder of an 800 by 600 window at a scale of 1.0, with no handler.
    pub fn new() -> (r: WindowBuilder<H>)
        ensures
            r.handler_spec().is_none(),
            r.size_spec().width_spec() == DEFAULT_WIDTH,
            r.size_spec().height_spec() == DEFAULT_HEIGHT,
            r.scale_spec().x_spec() == UNIT_SCALE,
            r.scale_spec().y_spec() == UNIT_SCALE,
            r.title_spec() == Seq::<char>::empty(),
    {
        WindowBuilder {
            handler: None,
            title: String::new(),
            menu: None,
            size: Size::new(DEFAULT_WIDTH, DEFAULT_HEIGHT),
            scale: Scale::identity(),
        }
    }

    /// The handler that receives the window's events.
    pub fn set_handler(&mut self, handler: H)
        ensures
            final(self).handler_spec() == Some(handler),
            final(self).size_spec() == old(self).size_spec(),
            final(self).scale_spec() == old(self).scale_spec(),
            final(self).title_spec() == old(self).title_spec(),
    {
        self.handler = Some(handler);
    }

    /// The initial size of the drawing area, in display points.
    pub fn set_size(&mut self, size: Size)
        ensures
            final(self).size_spec() == size,
            final(self).handler_spec() == old(self).handler_spec(),
            final(self).scale_spec() == old(self).scale_spec(),
            final(self).title_spec() == old(self).title_spec(),
    {
        self.size = size;
    }

    /// The scale from display points to device pixels.
    pub fn set_scale(&mut self, scale: Scale)
        ensures
            final(self).scale_spec() == scale,
            final(self).handler_spec() == old(self).handler_spec(),
            final(self).size_spec() == old(self).size_spec(),
            final(self).title_spec() == old(self).title_spec(),
    {
        self.scale = scale;
    }

    /// Ignored by this platform.
    pub fn set_min_size(&mut self, size: Size) {
    }

    /// Ignored by this platform.
    pub fn resizable(&mut self, resizable: bool) {
    }

    /// Ignored by this platform.
    pub fn show_titlebar(&mut self, show_titlebar: bool) {
    }

    /// Ignored by this platform.
    pub fn set_position(&mut self, position: Point) {
    }

    /// Ignored by this platform.
    pub fn set_window_state(&self, state: WindowState) {
    }

    /// Ignored by this platform.
    pub fn set_level(&mut self, level: WindowLevel) {
    }

    /// The window's title.
    pub fn set_title(&mut self, title: String)
        ensures
            final(self).title_spec() == title@,
            final(self).handler_spec() == old(self).handler_spec(),
            final(self).size_spec() == old(self).size_spec(),
            final(self).scale_spec() == old(self).scale_spec(),
    {
        self.title = title;
    }

    /// The window's menu.
    pub fn set_menu(&mut self, menu: Menu)
        ensures
            final(self).handler_spec() == old(self).handler_spec(),
            final(self).size_spec() == old(self).size_spec(),
            final(self).scale_spec() == old(self).scale_spec(),
            final(self).title_spec() == old(self).title_spec(),
    {
        self.menu = Some(menu);
    }
}

impl<H> WindowBuilder<H> {
    /// Makes the window, hands it to `app` in place of any window before, and
    /// connects the handler: `connect`, then `scale`, then `size`. Fails without
    /// a handler, or once every window id has been used.
    pub fn build<C>(self, app: &mut Application<C, H>) -> (r: Result<WindowHandle, Error>)
        where H: WinHandler<C>,
        ensures
            self.handler_spec().is_none() ==> r == Err::<WindowHandle, Error>(Error::MissingHandler)
                && final(app).same_as(old(app)),
            self.handler_spec().is_some() && old(app).next_window_id_spec() == u64::MAX ==> r
                == Err::<WindowHandle, Error>(Error::OutOfIds) && final(app).same_as(old(app)),
            self.handler_spec().is_some() && old(app).next_window_id_spec() < u64::MAX ==> {
                &&& r matches Ok(h) && final(app).resolves(h)
                    && h.id_spec() == old(app).next_window_id_spec()
                &&& final(app).window_spec().unwrap().size_spec() == self.size_spec()
                &&& final(app).window_spec().unwrap().scale_spec() == self.scale_spec()
                &&& final(app).window_spec().unwrap().invalid_spec().len() == 0
                &&& final(app).window_spec().unwrap().prev_invalid_spec().len() == 0
                &&& final(app).window_spec().unwrap().timers_spec().len() == 0
                &&& final(app).handler_spec().is_some()
                &&& old(app).window_spec() matches Some(ow) ==> final(app).window_spec().unwrap().next_token_spec() >= ow.next_token_spec()
                &&& final(app).window_spec().unwrap().next_token_spec() >= old(app).token_floor_spec()
            },
    {
        let handler = match self.handler {
            Some(h) => h,
            None => {
                return Err(Error::MissingHandler);
            },
        };
        let id = match app.new_window_id() {
            Some(id) => id,
            None => {
                return Err(Error::OutOfIds);
            },
        };
        let first = app.fresh_token_start();
        let window: Window<C> = Window::new(id, self.size, self.scale, first);
        app.add_window(window, handler);
        app.connect();
        Ok(WindowHandle::with_id(id))
    }
}

} // verus!
