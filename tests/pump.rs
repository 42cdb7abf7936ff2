use druid_shell_core::application::{Application, PaintContext, WinHandler, WindowHandle};
use druid_shell_core::geometry::{IRect, Rect, Scale, Size};
use druid_shell_core::handle::WindowBuilder;
use druid_shell_core::idle::{asks_redraw, IdleDelivery, IdleKind, IdleToken};
use druid_shell_core::keyboard::{Code, ElementState, KeyEvent, KeyState, KeyboardInput, VirtualKeyCode};
use druid_shell_core::mouse::{MouseButton, MouseEvent, NativeMouseButton};
use druid_shell_core::region::Region;
use druid_shell_core::timer::{Instant, TimerToken};

type Callback = Box<dyn FnOnce(&mut Recorder) + Send>;
type App = Application<Callback, Recorder>;

#[derive(Default)]
struct Recorder {
    calls: Vec<String>,
    timers: Vec<u64>,
    idle: Vec<usize>,
    tags: Vec<(u32, u32)>,
    painted: Vec<Vec<Rect>>,
    keys: Vec<KeyEvent>,
    mice: Vec<MouseEvent>,
    handle: Option<WindowHandle>,
    invalidate_in_paint: Option<Rect>,
    render_in_paint: bool,
    nested_render: Option<bool>,
}

#[derive(Default)]
struct Surface {
    clips: Vec<Vec<IRect>>,
    saves: usize,
    restores: usize,
}

impl PaintContext for Surface {
    fn save(&mut self) {
        self.saves += 1;
    }

    fn clip_to(&mut self, rects: &Vec<IRect>) {
        self.clips.push(rects.clone());
    }

    fn restore(&mut self) {
        self.restores += 1;
    }
}

impl WinHandler<Callback> for Recorder {
    type Paint = Surface;

    fn connect(&mut self, handle: &WindowHandle) {
        self.calls.push("connect".to_string());
        self.handle = Some(*handle);
    }

    fn scale(&mut self, scale: Scale) {
        self.calls.push(format!("scale {} {}", scale.x(), scale.y()));
    }

    fn size(&mut self, size: Size) {
        self.calls.push(format!("size {} {}", size.width(), size.height()));
    }

    fn prepare_paint(&mut self, _app: &mut App) {
        self.calls.push("prepare_paint".to_string());
    }

    fn paint(&mut self, app: &mut App, ctx: &mut Surface, invalid: &Region) {
        self.calls.push("paint".to_string());
        self.painted.push(invalid.rects().clone());
        if let (Some(r), Some(h)) = (self.invalidate_in_paint, self.handle) {
            h.invalidate_rect(app, r);
        }
        if self.render_in_paint {
            let mut other = Surface::default();
            self.nested_render = Some(app.render(&mut other, None));
        }
        let _ = ctx;
    }

    fn key_down(&mut self, _app: &mut App, event: KeyEvent) -> bool {
        self.keys.push(event);
        true
    }

    fn key_up(&mut self, _app: &mut App, event: KeyEvent) {
        self.keys.push(event);
    }

    fn mouse_move(&mut self, _app: &mut App, event: &MouseEvent) {
        self.mice.push(*event);
    }

    fn mouse_down(&mut self, _app: &mut App, event: &MouseEvent) {
        self.mice.push(*event);
    }

    fn mouse_up(&mut self, _app: &mut App, event: &MouseEvent) {
        self.mice.push(*event);
    }

    fn timer(&mut self, _app: &mut App, token: TimerToken) {
        self.timers.push(token.into_raw());
    }

    fn idle(&mut self, _app: &mut App, token: IdleToken) {
        self.idle.push(token.id);
    }

    fn idle_callback(&mut self, _app: &mut App, callback: Callback) {
        callback(self);
    }
}

fn build(scale: Scale) -> (App, WindowHandle) {
    let mut app: App = Application::new();
    let mut builder = WindowBuilder::new();
    builder.set_handler(Recorder::default());
    builder.set_scale(scale);
    builder.set_size(Size::new(800_000, 600_000));
    let handle = builder.build(&mut app).expect("window");
    (app, handle)
}

fn rec(app: &App) -> &Recorder {
    app.handler().expect("handler")
}

fn ms(n: u64) -> Instant {
    Instant::from_millis(n)
}

#[test]
fn build_delivers_connect_scale_size_in_order() {
    let (mut app, handle) = build(Scale::identity());
    let calls = rec(&app).calls.clone();
    assert_eq!(calls, vec!["connect", "scale 1000 1000", "size 800000 600000"]);
    let got = rec(&app).handle;
    assert_eq!(got, Some(handle));
}

#[test]
fn build_without_handler_fails() {
    let mut app: App = Application::new();
    let builder: WindowBuilder<Recorder> = WindowBuilder::new();
    assert_eq!(
        builder.build(&mut app).err(),
        Some(druid_shell_core::error::Error::MissingHandler)
    );
    assert!(app.window().is_none());
}

#[test]
fn invalidate_rect_is_painted_and_kept_as_previous() {
    let (mut app, handle) = build(Scale::identity());
    let r = Rect::new(10_000, 10_000, 110_000, 60_000);
    handle.invalidate_rect(&mut app, r);
    let mut surface = Surface::default();
    assert!(app.render(&mut surface, None));
    let painted = rec(&app).painted.clone();
    assert_eq!(painted, vec![vec![r]]);
    assert_eq!(surface.clips, vec![vec![IRect::new(10, 10, 110, 60)]]);
    assert_eq!(surface.saves, 1);
    assert_eq!(surface.restores, 1);
    let w = app.window().unwrap();
    assert_eq!(w.prev_invalid().rects(), &vec![r]);
    assert!(w.invalid().rects().is_empty());
}

#[test]
fn previous_damage_is_repainted_once_more() {
    let (mut app, handle) = build(Scale::identity());
    let r = Rect::new(10_000, 10_000, 110_000, 60_000);
    handle.invalidate_rect(&mut app, r);
    let mut surface = Surface::default();
    app.render(&mut surface, None);
    app.render(&mut surface, None);
    app.render(&mut surface, None);
    let painted = rec(&app).painted.clone();
    assert_eq!(painted, vec![vec![r], vec![r], vec![]]);
}

#[test]
fn timers_fire_earliest_deadline_first() {
    let (mut app, handle) = build(Scale::identity());
    let tok_a = handle.request_timer(&mut app, ms(10));
    let tok_b = handle.request_timer(&mut app, ms(5));
    assert!(tok_a.is_valid() && tok_b.is_valid());
    assert!(app.run_timers(ms(4)).is_empty());
    assert_eq!(app.run_timers(ms(6)), vec![tok_b]);
    assert_eq!(app.run_timers(ms(11)), vec![tok_a]);
    let fired = rec(&app).timers.clone();
    assert_eq!(fired, vec![tok_b.into_raw(), tok_a.into_raw()]);
}

#[test]
fn equal_deadlines_fire_in_issue_order() {
    let (mut app, handle) = build(Scale::identity());
    let first = handle.request_timer(&mut app, ms(3));
    let second = handle.request_timer(&mut app, ms(3));
    let early = handle.request_timer(&mut app, ms(1));
    assert_eq!(app.run_timers(ms(3)), vec![early, first, second]);
}

#[test]
fn past_deadline_fires_on_next_tick() {
    let (mut app, handle) = build(Scale::identity());
    let tok = handle.request_timer(&mut app, ms(2));
    assert_eq!(app.run_timers(ms(50)), vec![tok]);
    assert!(app.run_timers(ms(60)).is_empty());
}

#[test]
fn timer_tokens_strictly_increase() {
    let (mut app, handle) = build(Scale::identity());
    let mut last = 0;
    for i in 0..20 {
        let tok = handle.request_timer(&mut app, ms(100 - i));
        assert!(tok.into_raw() > last);
        last = tok.into_raw();
    }
}

#[test]
fn idle_tokens_from_one_thread_arrive_in_order() {
    let (mut app, handle) = build(Scale::identity());
    let idle = handle.get_idle_handle(&app).unwrap();
    for i in 0..5 {
        idle.add_idle_token(IdleToken::new(i));
    }
    let done = app.run_idle();
    assert!(!asks_redraw(&done));
    assert_eq!(done, (0..5).map(|i| IdleDelivery::Token(IdleToken::new(i))).collect::<Vec<_>>());
    let seen = rec(&app).idle.clone();
    assert_eq!(seen, vec![0, 1, 2, 3, 4]);
}

#[test]
fn idle_callbacks_from_two_producers_keep_each_order() {
    let (mut app, handle) = build(Scale::identity());
    let producers = [handle.get_idle_handle(&app).unwrap(), handle.get_idle_handle(&app).unwrap()];
    for i in 0..10u32 {
        for t in [1u32, 0] {
            if (i + t) % 3 != 0 {
                producers[t as usize]
                    .add_idle_callback(Box::new(move |r: &mut Recorder| r.tags.push((t, i))));
            }
        }
    }
    for i in 0..10u32 {
        for t in [0u32, 1] {
            if (i + t) % 3 == 0 {
                producers[t as usize]
                    .clone()
                    .add_idle_callback(Box::new(move |r: &mut Recorder| r.tags.push((t, 100 + i))));
            }
        }
    }
    app.run_idle();
    let tags = rec(&app).tags.clone();
    assert_eq!(tags.len(), 20);
    for t in 0..2u32 {
        let mine: Vec<u32> = tags.iter().filter(|p| p.0 == t).map(|p| p.1).collect();
        let mut expected: Vec<u32> = (0..10).filter(|i| (i + t) % 3 != 0).collect();
        expected.extend((0..10).filter(|i| (i + t) % 3 == 0).map(|i| 100 + i));
        assert_eq!(mine, expected);
    }
}

#[test]
fn anim_frame_requests_coalesce_into_one_redraw() {
    let (mut app, handle) = build(Scale::identity());
    handle.request_anim_frame(&app);
    handle.request_anim_frame(&app);
    assert_eq!(app.run_idle(), vec![IdleDelivery::Redraw]);
    assert!(app.run_idle().is_empty());
}

#[test]
fn subpixel_rect_at_double_scale_clips_whole_pixels() {
    let (mut app, handle) = build(Scale::new(2000, 2000));
    handle.invalidate_rect(&mut app, Rect::new(400, 400, 1600, 1600));
    let mut surface = Surface::default();
    app.render(&mut surface, None);
    assert_eq!(surface.clips, vec![vec![IRect::new(0, 0, 4, 4)]]);
    let painted = rec(&app).painted.clone();
    assert_eq!(painted, vec![vec![Rect::new(0, 0, 2000, 2000)]]);
}

#[test]
fn dropped_window_handle_is_inert() {
    let (mut app, handle) = build(Scale::identity());
    handle.close(&mut app);
    assert!(app.window().is_none());
    let tok = handle.request_timer(&mut app, ms(1));
    assert_eq!(tok, TimerToken::invalid());
    assert!(!tok.is_valid());
    handle.invalidate(&mut app);
    handle.invalidate_rect(&mut app, Rect::new(0, 0, 10, 10));
    handle.request_anim_frame(&app);
    assert!(handle.get_idle_handle(&app).is_none());
    let _text = handle.text();
    assert_eq!(handle.get_position(), druid_shell_core::geometry::Point::new(0, 0));
    assert_eq!(handle.get_size(), Size::zero());
    assert!(app.window().is_none());
}

#[test]
fn stale_handle_does_not_reach_a_new_window() {
    let (mut app, old_handle) = build(Scale::identity());
    let mut builder = WindowBuilder::new();
    builder.set_handler(Recorder::default());
    let new_handle = builder.build(&mut app).unwrap();
    assert_ne!(old_handle, new_handle);
    assert_eq!(old_handle.request_timer(&mut app, ms(1)), TimerToken::invalid());
    assert!(new_handle.request_timer(&mut app, ms(1)).is_valid());
}

#[test]
fn two_invalidates_paint_like_one() {
    let (mut app, handle) = build(Scale::identity());
    handle.invalidate(&mut app);
    handle.invalidate(&mut app);
    let mut surface = Surface::default();
    app.render(&mut surface, None);
    let painted = rec(&app).painted.clone();
    let whole = Rect::new(0, 0, 800_000, 600_000);
    assert!(painted[0].iter().all(|r| *r == whole));
    assert!(!painted[0].is_empty());
}

#[test]
fn paint_with_no_damage_has_empty_region() {
    let (mut app, _handle) = build(Scale::identity());
    let mut surface = Surface::default();
    assert!(app.render(&mut surface, None));
    let painted = rec(&app).painted.clone();
    assert_eq!(painted, vec![Vec::<Rect>::new()]);
    assert_eq!(surface.clips, vec![Vec::<IRect>::new()]);
}

#[test]
fn invalidation_during_paint_goes_to_next_frame() {
    let r = Rect::new(0, 0, 5_000, 5_000);
    let mut app: App = Application::new();
    let mut builder = WindowBuilder::new();
    builder.set_handler(Recorder {
        invalidate_in_paint: Some(r),
        render_in_paint: true,
        ..Recorder::default()
    });
    builder.build(&mut app).unwrap();
    let mut surface = Surface::default();
    assert!(app.render(&mut surface, None));
    assert_eq!(rec(&app).painted, vec![Vec::<Rect>::new()]);
    assert_eq!(rec(&app).nested_render, Some(false));
    assert!(app.render(&mut surface, None));
    assert_eq!(rec(&app).painted[1], vec![r]);
}

#[test]
fn portrait_clip_is_turned() {
    let (mut app, handle) = build(Scale::identity());
    handle.invalidate_rect(&mut app, Rect::new(10_000, 20_000, 30_000, 40_000));
    let mut surface = Surface::default();
    app.render(&mut surface, Some(1920));
    assert_eq!(surface.clips, vec![vec![IRect::new(1920 - 40, 10, 1920 - 20, 30)]]);
}

#[test]
fn key_press_and_release_are_translated() {
    let (mut app, _handle) = build(Scale::identity());
    let down = app.handle_key_press(KeyboardInput {
        state: ElementState::Pressed,
        virtual_keycode: Some(VirtualKeyCode::A),
    });
    assert_eq!(down.map(|e| (e.code, e.state)), Some((Code::KeyA, KeyState::Down)));
    app.handle_key_press(KeyboardInput { state: ElementState::Released, virtual_keycode: None });
    let keys = rec(&app).keys.clone();
    assert_eq!(keys[0].code, Code::KeyA);
    assert_eq!(keys[0].state, KeyState::Down);
    assert_eq!(keys[1].code, Code::Unidentified);
    assert_eq!(keys[1].state, KeyState::Up);
    assert!(!keys[0].repeat && !keys[0].is_composing);
}

#[test]
fn mouse_positions_are_converted_to_display_points() {
    let (mut app, _handle) = build(Scale::new(2000, 2000));
    let moved = app.handle_motion_notify(20, 40).unwrap();
    assert_eq!(moved.pos, druid_shell_core::geometry::Point::new(10_000, 20_000));
    let pressed = app.handle_button_press(20, 40, NativeMouseButton::Left).unwrap();
    assert_eq!((pressed.button, pressed.count), (MouseButton::Left, 1));
    assert!(app.handle_button_release(20, 40, NativeMouseButton::Right).is_some());
    assert!(app.handle_button_press(20, 40, NativeMouseButton::Other(7)).is_none());
    assert!(app.handle_motion_notify(i64::MAX, 0).is_none());
    let mice = rec(&app).mice.clone();
    assert_eq!(mice.len(), 3);
    assert_eq!(mice[0].pos, druid_shell_core::geometry::Point::new(10_000, 20_000));
    assert_eq!(mice[0].button, MouseButton::NoButton);
    assert_eq!(mice[1].count, 1);
    assert_eq!(mice[1].button, MouseButton::Left);
    assert_eq!(mice[2].count, 0);
    assert_eq!(mice[2].button, MouseButton::Right);
}

#[test]
fn resize_recomputes_logical_size() {
    let (mut app, _handle) = build(Scale::new(2000, 2000));
    assert!(app.screen_size_changed(1024, 768).is_ok());
    let size = app.window().unwrap().size();
    assert_eq!((size.width(), size.height()), (512_000, 384_000));
    let calls = rec(&app).calls.clone();
    assert_eq!(calls.last().unwrap(), "size 512000 384000");
}

#[test]
fn out_of_range_rect_is_refused() {
    let (mut app, handle) = build(Scale::identity());
    let huge = Rect::new(0, 0, i64::MAX, 10);
    let w = app.window().unwrap().invalid().rects().len();
    handle.invalidate_rect(&mut app, huge);
    assert_eq!(app.window().unwrap().invalid().rects().len(), w);
}

#[test]
fn delivered_idle_items_run_in_order_and_report_redraw() {
    let (mut app, _handle) = build(Scale::identity());
    let items: Vec<IdleKind<Callback>> = vec![
        IdleKind::Token(IdleToken::new(3)),
        IdleKind::Callback(Box::new(|r: &mut Recorder| r.tags.push((9, 9)))),
        IdleKind::Redraw,
        IdleKind::Token(IdleToken::new(4)),
    ];
    assert_eq!(
        app.deliver_idle(items),
        vec![
            IdleDelivery::Token(IdleToken::new(3)),
            IdleDelivery::Callback,
            IdleDelivery::Redraw,
            IdleDelivery::Token(IdleToken::new(4)),
        ]
    );
    assert_eq!(rec(&app).idle, vec![3, 4]);
    assert_eq!(rec(&app).tags, vec![(9, 9)]);
    let none: Vec<IdleKind<Callback>> = vec![IdleKind::Token(IdleToken::new(5))];
    assert!(!asks_redraw(&app.deliver_idle(none)));
}

#[test]
fn zero_width_rect_is_grown_before_it_is_dropped() {
    let (mut app, handle) = build(Scale::identity());
    handle.invalidate_rect(&mut app, Rect::new(500, 0, 500, 1000));
    assert_eq!(app.window().unwrap().invalid().rects(), &vec![Rect::new(0, 0, 1000, 1000)]);
    handle.invalidate_rect(&mut app, Rect::new(1000, 0, 1000, 1000));
    assert_eq!(app.window().unwrap().invalid().rects().len(), 1);
}

#[test]
fn resize_without_window_or_out_of_range() {
    let mut app: App = Application::new();
    assert!(app.screen_size_changed(10, 10).is_ok());
    let (mut app, _handle) = build(Scale::new(1, 1));
    assert_eq!(
        app.screen_size_changed(u32::MAX, 1),
        Err(druid_shell_core::error::Error::OutOfRange)
    );
    assert_eq!(app.window().unwrap().size(), Size::new(800_000, 600_000));
}

#[test]
fn new_window_issues_no_token_of_the_old_one() {
    let (mut app, old_handle) = build(Scale::identity());
    let t1 = old_handle.request_timer(&mut app, ms(1));
    let mut builder = WindowBuilder::new();
    builder.set_handler(Recorder::default());
    let new_handle = builder.build(&mut app).unwrap();
    let t2 = new_handle.request_timer(&mut app, ms(1));
    assert!(t2.into_raw() > t1.into_raw());
}

#[test]
fn window_begin_and_end_paint_through_the_application() {
    let (mut app, handle) = build(Scale::identity());
    handle.invalidate(&mut app);
    handle.invalidate(&mut app);
    let mut surface = Surface::default();
    app.render(&mut surface, None);
    assert_eq!(
        surface.clips[0],
        vec![IRect::new(0, 0, 800, 600), IRect::new(0, 0, 800, 600)]
    );
    assert_eq!(app.window().unwrap().prev_invalid().rects().len(), 2);
    app.render(&mut surface, None);
    assert_eq!(rec(&app).painted[1].len(), 2);
    assert!(app.window().unwrap().prev_invalid().rects().is_empty());
}

#[test]
fn dropped_handle_still_gives_text() {
    let (mut app, handle) = build(Scale::identity());
    handle.close(&mut app);
    let _text = handle.text();
    assert!(app.window().is_none());
}
