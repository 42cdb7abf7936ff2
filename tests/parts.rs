use druid_shell_core::application::Application;
use druid_shell_core::error::{Error, ShellError};
use druid_shell_core::geometry::{transform_clip_rect, IRect, Point, Rect, Scale, Size};
use druid_shell_core::handle::WindowBuilder;
use druid_shell_core::keyboard::{
    code_to_key, is_quit_key, key_event_from_input, virtual_keycode_to_code, Code, ElementState,
    Key, KeyState, KeyboardInput, Location, Modifiers, VirtualKeyCode, MOD_NUM_LOCK, MOD_SHIFT,
};
use druid_shell_core::mouse::{
    convert_mouse_button, mouse_button, mouse_buttons, MouseButton, MouseButtons, NativeMouseButton,
};
use druid_shell_core::pacing::{portrait_height, FramePacer, PaceAction, FRAME_TIME};
use druid_shell_core::platform::{
    Clipboard, ClipboardPlatform, FileDialogOptions, FileDialogType, Menu, MenuPlatform,
    WindowState,
};
use druid_shell_core::region::Region;
use druid_shell_core::timer::{Instant, Timer, TimerQueue, TimerToken};

#[test]
fn portrait_transform_of_clip_rect() {
    let h = 1080;
    assert_eq!(
        transform_clip_rect(IRect::new(10, 20, 30, 40), h),
        IRect::new(h - 40, 10, h - 20, 30)
    );
}

#[test]
fn expand_at_unit_scale_keeps_whole_points() {
    let r = Rect::new(10_000, 10_000, 110_000, 60_000);
    assert_eq!(r.expand_to_pixels(Scale::identity()), r);
    assert_eq!(r.to_px(Scale::identity()), IRect::new(10, 10, 110, 60));
}

#[test]
fn expand_grows_outward_to_pixel_grid() {
    let s = Scale::new(2000, 2000);
    let r = Rect::new(400, 400, 1600, 1600);
    assert_eq!(r.to_px(s), IRect::new(0, 0, 4, 4));
    assert_eq!(r.expand_to_pixels(s), Rect::new(0, 0, 2000, 2000));
    let neg = Rect::new(-1_250, -250, 250, 1_250);
    assert_eq!(neg.to_px(s), IRect::new(-3, -1, 1, 3));
    assert_eq!(neg.expand_to_pixels(s), Rect::new(-1_500, -500, 500, 1_500));
}

#[test]
fn expand_round_trip_stays_within_a_pixel() {
    let s = Scale::new(1500, 1250);
    let r = Rect::new(333, 777, 10_001, 20_003);
    let p = r.to_px(s);
    let q = r.expand_to_pixels(s).to_px(s);
    assert!(q.left <= p.left && q.left >= p.left - 1);
    assert!(q.top <= p.top && q.top >= p.top - 1);
    assert!(q.right >= p.right && q.right <= p.right + 1);
    assert!(q.bottom >= p.bottom && q.bottom <= p.bottom + 1);
    assert_eq!(IRect::new(0, 0, 3, 3).to_dp(s), Rect::new(0, 0, 2_000, 2_400));
}

#[test]
fn size_from_pixels_rounds_down() {
    let s = Scale::new(1500, 2000);
    let size = Size::from_px(100, 101, s).unwrap();
    assert_eq!((size.width(), size.height()), (66_666, 50_500));
    assert!(Size::from_px(u32::MAX, 1, Scale::new(1, 1000)).is_none());
    assert_eq!(Size::new(3, 4).to_rect(), Rect::new(0, 0, 3, 4));
    assert_eq!(Point::from_px(3, -3, s), Point::new(2_000, -1_500));
}

#[test]
fn region_skips_rects_without_area() {
    let mut region = Region::empty();
    assert!(region.is_empty());
    region.add_rect(Rect::new(0, 0, 0, 10));
    region.add_rect(Rect::new(5, 5, 1, 10));
    region.add_rect(Rect::new(0, 0, i64::MAX, 10));
    assert!(region.is_empty());
    region.add_rect(Rect::new(0, 0, 1, 1));
    let mut other = Region::empty();
    other.add_rect(Rect::new(2, 2, 3, 3));
    region.union_with(&other);
    assert_eq!(region.rects(), &vec![Rect::new(0, 0, 1, 1), Rect::new(2, 2, 3, 3)]);
    let taken = region.take();
    assert!(region.is_empty());
    assert_eq!(taken.rects().len(), 2);
}

#[test]
fn timer_queue_orders_and_splits() {
    let mut q = TimerQueue::new();
    let a = q.schedule(Instant::from_nanos(30));
    let b = q.schedule(Instant::from_nanos(10));
    let c = q.schedule(Instant::from_nanos(10));
    assert!(a.into_raw() < b.into_raw() && b.into_raw() < c.into_raw());
    assert_eq!(q.next_token(), 4);
    let t = Timer::new(Instant::from_nanos(1), a);
    assert_eq!((t.deadline(), t.token()), (Instant::from_nanos(1), a));
    assert_eq!(q.next_deadline(), Some(Instant::from_nanos(10)));
    let due = q.take_due(Instant::from_nanos(20));
    let toks: Vec<TimerToken> = due.iter().map(|t| t.token()).collect();
    assert_eq!(toks, vec![b, c]);
    assert_eq!(q.len(), 1);
    assert_eq!(q.peek().map(|t| t.token()), Some(a));
}

#[test]
fn instants_add_and_saturate() {
    assert_eq!(Instant::from_millis(5).plus_millis(5), Instant::from_millis(10));
    assert_eq!(Instant::from_nanos(u64::MAX - 1).plus_millis(1).nanos(), u64::MAX);
    assert!(Instant::from_nanos(3).is_at_or_before(Instant::from_nanos(3)));
}

#[test]
fn keycode_table_maps_each_group() {
    assert_eq!(virtual_keycode_to_code(VirtualKeyCode::Key1), Code::Digit1);
    assert_eq!(virtual_keycode_to_code(VirtualKeyCode::Z), Code::KeyZ);
    assert_eq!(virtual_keycode_to_code(VirtualKeyCode::F12), Code::F12);
    assert_eq!(virtual_keycode_to_code(VirtualKeyCode::F13), Code::Unidentified);
    assert_eq!(virtual_keycode_to_code(VirtualKeyCode::Left), Code::ArrowLeft);
    assert_eq!(virtual_keycode_to_code(VirtualKeyCode::Back), Code::Backspace);
    assert_eq!(virtual_keycode_to_code(VirtualKeyCode::Return), Code::Enter);
    assert_eq!(virtual_keycode_to_code(VirtualKeyCode::NumpadEquals), Code::NumpadEqual);
    assert_eq!(virtual_keycode_to_code(VirtualKeyCode::NoConvert), Code::NonConvert);
    assert_eq!(virtual_keycode_to_code(VirtualKeyCode::LShift), Code::Unidentified);
    assert_eq!(virtual_keycode_to_code(VirtualKeyCode::Snapshot), Code::PrintScreen);
    assert_eq!(virtual_keycode_to_code(VirtualKeyCode::Cut), Code::Cut);
}

#[test]
fn key_events_carry_no_modifiers() {
    let e = key_event_from_input(KeyboardInput {
        state: ElementState::Released,
        virtual_keycode: Some(VirtualKeyCode::Escape),
    });
    assert_eq!(e.code, Code::Escape);
    assert_eq!(e.state, KeyState::Up);
    assert_eq!(e.mods.bits, 0);
    assert_eq!(e.location, Location::Standard);
}

#[test]
fn mouse_button_tables() {
    assert_eq!(convert_mouse_button(NativeMouseButton::Middle), Some(MouseButton::Middle));
    assert_eq!(convert_mouse_button(NativeMouseButton::Other(4)), None);
    assert_eq!(mouse_button(1), Some(MouseButton::Middle));
    assert_eq!(mouse_button(4), Some(MouseButton::X2));
    assert_eq!(mouse_button(5), None);
    let set = mouse_buttons(0b10101);
    assert!(set.contains(MouseButton::Left));
    assert!(!set.contains(MouseButton::Right));
    assert!(set.contains(MouseButton::Middle));
    assert!(set.contains(MouseButton::X2));
    let mut none = MouseButtons::new();
    none.insert(MouseButton::NoButton);
    assert_eq!(none, MouseButtons::new());
}

#[test]
fn pacer_requests_or_sleeps() {
    let start = Instant::from_nanos(1_000);
    let mut pacer = FramePacer::new(start);
    assert_eq!(
        pacer.on_event(Instant::from_nanos(1_000 + 5_000_000)),
        PaceAction::Sleep(FRAME_TIME - 5_000_000)
    );
    assert_eq!(
        pacer.on_event(Instant::from_nanos(1_000 + FRAME_TIME - 1)),
        PaceAction::Sleep(1)
    );
    assert_eq!(
        pacer.on_event(Instant::from_nanos(1_000 + FRAME_TIME)),
        PaceAction::RequestRedraw
    );
    assert_eq!(
        pacer.on_event(Instant::from_nanos(1_000 + FRAME_TIME + 1)),
        PaceAction::RequestRedraw
    );
    pacer.presented(Instant::from_nanos(50_000_000));
    assert_eq!(pacer.on_event(Instant::from_nanos(50_000_000)), PaceAction::Sleep(FRAME_TIME));
    assert_eq!(pacer.on_redraw(Instant::from_nanos(600_000_000)), None);
    assert_eq!(pacer.on_redraw(Instant::from_nanos(1_100_000_000)), Some(2));
    assert_eq!(pacer.on_redraw(Instant::from_nanos(1_200_000_000)), None);
}

#[test]
fn portrait_only_when_taller_than_wide() {
    assert_eq!(portrait_height(1080, 1920), Some(1920));
    assert_eq!(portrait_height(1920, 1080), None);
    assert_eq!(portrait_height(100, 100), None);
}

#[test]
fn stubs_return_their_sentinels() {
    let app: Application<u8, ()> = Application::new();
    assert_eq!(Application::<u8, ()>::get_locale(), "en-US");
    assert!(app.clipboard().get_string().is_none());
    let mut clip = Clipboard;
    clip.put_string("x");
    assert!(clip.available_type_names().is_empty());
    let mut menu = Menu::new();
    menu.add_item(1, "a", None, true, false);
    menu.add_separator();
    let handle = druid_shell_core::application::WindowHandle::default();
    assert_eq!(handle.get_window_state(), WindowState::Restored);
    assert_eq!(handle.get_scale(), Err(ShellError::Platform(Error::Unimplemented)));
    assert_eq!(handle.set_title("t"), Err(ShellError::Platform(Error::Unimplemented)));
    assert_eq!(
        handle.file_dialog(FileDialogType::Open, FileDialogOptions::default()),
        Err(ShellError::Platform(Error::Unimplemented))
    );
    assert!(handle.make_cursor(&druid_shell_core::platform::CursorDesc {
        width: 1,
        height: 1,
        hot_x: 0,
        hot_y: 0
    })
    .is_none());
    assert_eq!(Error::Unimplemented.message(), "Requested an unimplemented feature");
    assert_eq!(Error::OutOfRange.message(), "A coordinate is out of range");
}

#[test]
fn quitting_is_monotonic() {
    let mut app: Application<u8, ()> = Application::new();
    assert!(!app.is_quitting());
    app.quit();
    app.quit();
    assert!(app.is_quitting());
}

#[test]
fn logical_keys_follow_shift_and_num_lock() {
    use_keys();
}

fn use_keys() {
    let none = Modifiers::empty();
    let shift = Modifiers { bits: MOD_SHIFT };
    let num = Modifiers { bits: MOD_NUM_LOCK };
    assert_eq!(code_to_key(Code::KeyA, none), Key::Character('a'));
    assert_eq!(code_to_key(Code::KeyA, shift), Key::Character('A'));
    assert_eq!(code_to_key(Code::Digit1, shift), Key::Character('!'));
    assert_eq!(code_to_key(Code::Numpad1, none), Key::End);
    assert_eq!(code_to_key(Code::Numpad1, num), Key::Character('1'));
    assert_eq!(code_to_key(Code::NumpadEnter, none), Key::Enter);
    assert_eq!(code_to_key(Code::Space, none), Key::Character(' '));
    assert_eq!(code_to_key(Code::Unidentified, none), Key::Unidentified);
    let e = key_event_from_input(KeyboardInput {
        state: ElementState::Pressed,
        virtual_keycode: Some(VirtualKeyCode::B),
    });
    assert_eq!(e.key, Key::Character('b'));
    assert!(is_quit_key(KeyboardInput {
        state: ElementState::Pressed,
        virtual_keycode: Some(VirtualKeyCode::Escape)
    }));
    assert!(!is_quit_key(KeyboardInput {
        state: ElementState::Released,
        virtual_keycode: Some(VirtualKeyCode::Escape)
    }));
}
