//! The collaborators that this platform offers only in outline: clipboard, menus,
//! cursors, dialogs and text, and the traits they conform to.
//!
//! There are no traits here for the application, the window, its handle or its
//! builder: those are the concrete `Application`, `Window`, `WindowHandle` and
//! `WindowBuilder`, and a handle reaches its window through the application it
//! is handed, which a trait over a handle alone could not express.
use vstd::prelude::*;
use crate::idle::{IdleHandle, IdleToken};

verus! {

/// Data in one clipboard format.
#[derive(Clone, Debug)]
pub struct ClipboardFormat {
    pub identifier: String,
    pub data: Vec<u8>,
}

/// What a system clipboard offers.
pub trait ClipboardPlatform {
    /// Puts a string onto the clipboard.
    fn put_string(&mut self, s: &str);

    /// Puts data in several formats onto the clipboard.
    fn put_formats(&mut self, formats: &[ClipboardFormat]);

    /// The string on the clipboard, if one is there.
    fn get_string(&self) -> Option<String>;

    /// Of `formats`, the one the clipboard holds with the highest priority.
    fn preferred_format(&self, formats: &[String]) -> Option<String>;

    /// The data in `format`, if the clipboard holds it.
    fn get_format(&self, format: &str) -> Option<Vec<u8>>;

    /// The names of the types that the clipboard holds.
    fn available_type_names(&self) -> Vec<String>;
}

/// The clipboard of this platform: it holds nothing and accepts nothing.
#[derive(Clone, Copy, Debug, Default)]
pub struct Clipboard;

impl ClipboardPlatform for Clipboard {
    fn put_string(&mut self, s: &str) {
    }

    fn put_formats(&mut self, formats: &[ClipboardFormat]) {
    }

    fn get_string(&self) -> Option<String> {
        None
    }

    fn preferred_format(&self, formats: &[String]) -> Option<String> {
        None
    }

    fn get_format(&self, format: &str) -> Option<Vec<u8>> {
        None
    }

    fn available_type_names(&self) -> Vec<String> {
        Vec::new()
    }
}

/// Posting idle work from any thread.
pub trait IdleHandlePlatform<C> {
    /// Posts a callback that runs once with the window's handler.
    fn add_idle_callback(&self, callback: C);

    /// Posts a token for the handler's `idle`.
    fn add_idle_token(&self, token: IdleToken);
}

impl<C> IdleHandlePlatform<C> for IdleHandle<C> {
    fn add_idle_callback(&self, callback: C) {
        IdleHandle::add_idle_callback(self, callback)
    }

    fn add_idle_token(&self, token: IdleToken) {
        IdleHandle::add_idle_token(self, token)
    }
}

/// A keyboard shortcut shown beside a menu item.
#[derive(Clone, Debug, PartialEq, Eq)]
pub struct HotKey {
    pub key: String,
}

/// What a menu offers.
pub trait MenuPlatform: Sized {
    fn new() -> Self;

    fn new_for_popup() -> Self;

    fn add_dropdown(&mut self, menu: Self, text: &str, enabled: bool);

    /// Adds an item; menus are drawn by no platform yet, so this does nothing.
    fn add_item(
        &mut self,
        id: u32,
        text: &str,
        key: Option<&HotKey>,
        enabled: bool,
        selected: bool,
    ) {
    }

    /// Adds a separator; menus are drawn by no platform yet, so this does nothing.
    fn add_separator(&mut self) {
    }
}

/// A menu of this platform, which shows nothing.
#[derive(Clone, Copy, Debug, Default)]
pub struct Menu;

impl MenuPlatform for Menu {
    fn new() -> Self {
        Menu
    }

    fn new_for_popup() -> Self {
        Menu
    }

    fn add_dropdown(&mut self, menu: Self, text: &str, enabled: bool) {
    }
}

/// A cursor image of the application's own; none is supported yet.
#[derive(Clone, Copy, Debug, PartialEq, Eq, Structural)]
pub struct CustomCursor;

/// A mouse cursor.
#[derive(Clone, Copy, Debug, PartialEq, Eq, Structural)]
pub enum Cursor {
    Arrow,
    IBeam,
    Crosshair,
    OpenHand,
    NotAllowed,
    ResizeLeftRight,
    ResizeUpDown,
    Custom(CustomCursor),
}

/// A description of a custom cursor image.
#[derive(Clone, Debug)]
pub struct CursorDesc {
    pub width: u32,
    pub height: u32,
    pub hot_x: u32,
    pub hot_y: u32,
}

/// Options of a file dialog.
#[derive(Clone, Debug, Default)]
pub struct FileDialogOptions {
    pub title: Option<String>,
    pub starting_directory: Option<String>,
}

/// Which file dialog is meant.
#[derive(Clone, Copy, Debug, PartialEq, Eq, Structural)]
pub enum FileDialogType {
    Open,
    Save,
}

/// The token of an open file dialog.
#[derive(Clone, Copy, Debug, PartialEq, Eq, Hash, Structural)]
pub struct FileDialogToken {
    pub id: u64,
}

/// The level a window stands at among others.
#[derive(Clone, Copy, Debug, PartialEq, Eq, Structural)]
pub enum WindowLevel {
    AppWindow,
    Tooltip,
    DropDown,
    Modal,
}

/// Whether a window is maximized, minimized or neither.
#[derive(Clone, Copy, Debug, PartialEq, Eq, Structural)]
pub enum WindowState {
    Maximized,
    Minimized,
    Restored,
}

/// The text services of a window.
#[derive(Clone, Copy, Debug, Default)]
pub struct TextContext;

} // verus!
