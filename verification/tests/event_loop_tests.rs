use baseview::translate::translate;
use vstd::prelude::*;
use baseview::KeyboardEvent;
use baseview::{
    Event, EventStatus, LoopState, Modifiers, MouseButton, MouseCursor, MouseEvent, NativeCommand,
    NativeEvent, ParentHandle, PhyPoint, PhySize, Point, Scale, ScrollDelta, Size, Window,
    WindowEvent, WindowHandler, WindowInfo, WindowOpenOptions, WindowScalePolicy,
};
use baseview::window::plan_open;
use baseview::EventLoop;

/// Records every event it is given; optionally requests closure when it
/// sees a chosen event, and counts frame ticks.
struct Recorder {
    events: Vec<Event>,
    frames: u32,
    close_on: Option<Event>,
}

impl Recorder {
    fn new() -> Recorder {
        Recorder { events: Vec::new(), frames: 0, close_on: None }
    }
}

impl WindowHandler for Recorder {
    // The two specification members exist only for Verus; they are
    // never called at runtime.
    fn seen(&self) -> Seq<Event> {
        unreachable!()
    }

    fn frames(&self) -> int {
        unreachable!()
    }

    fn on_frame(&mut self, _window: &mut Window) {
        self.frames += 1;
    }

    fn on_event(&mut self, window: &mut Window, event: Event) -> EventStatus {
        self.events.push(event);
        if self.close_on == Some(event) {
            window.close();
        }
        EventStatus::Ignored
    }
}

fn opts(width: u32, height: u32, scale: WindowScalePolicy) -> WindowOpenOptions {
    WindowOpenOptions { title: String::from("test window"), size: Size::new(width, height), scale }
}

fn fresh_loop(
    width: u32,
    height: u32,
    scale_millis: u32,
    parent: Option<ParentHandle>,
) -> EventLoop<Recorder> {
    let options = opts(width, height, WindowScalePolicy::ScaleFactor(Scale::new(scale_millis)));
    let plan = plan_open(&options, None, None).unwrap();
    let window = Window::new(plan.info, 1);
    EventLoop::new(window, Recorder::new(), parent)
}

#[test]
fn initial_event_is_resized_with_requested_size() {
    // Open at 800 by 600 logical with a fixed scale of 2.0: the first
    // delivered event is a resize reporting 800 by 600 logical and
    // 1600 by 1200 physical.
    let mut el = fresh_loop(800, 600, 2000, None);
    assert_eq!(el.state, LoopState::Constructing);
    el.start();
    assert_eq!(el.state, LoopState::Running);
    assert_eq!(el.handler.events.len(), 1);
    match el.handler.events[0] {
        Event::Window(WindowEvent::Resized(info)) => {
            assert_eq!(info.logical_size(), Size::new(800, 600));
            assert_eq!(info.physical_size(), PhySize::new(1600, 1200));
            assert_eq!(info.scale(), Scale::new(2000));
        }
        other => panic!("first event was not a resize: {:?}", other),
    }
}

#[test]
fn initial_event_under_system_policy() {
    let options = opts(300, 200, WindowScalePolicy::SystemScaleFactor);
    // The platform reported a 1.25 scale.
    let plan = plan_open(&options, None, Some(Scale::new(1250))).unwrap();
    let window = Window::new(plan.info, 1);
    let mut el = EventLoop::new(window, Recorder::new(), None);
    el.start();
    match el.handler.events[0] {
        Event::Window(WindowEvent::Resized(info)) => {
            assert_eq!(info.logical_size(), Size::new(300, 200));
            assert_eq!(info.physical_size(), PhySize::new(375, 250));
        }
        other => panic!("first event was not a resize: {:?}", other),
    }
}

#[test]
fn resize_delivered_before_other_events_of_the_batch() {
    let mut el = fresh_loop(100, 100, 1000, None);
    el.start();
    let batch = vec![
        NativeEvent::FocusIn,
        NativeEvent::Configure { width: 50, height: 60 },
        NativeEvent::Enter,
    ];
    let outcome = el.pump(&batch, false);
    assert!(!outcome.closing);
    let expected_info = WindowInfo::from_physical_size(PhySize::new(50, 60), Scale::new(1000));
    assert_eq!(
        el.handler.events[1..],
        [
            Event::Window(WindowEvent::Resized(expected_info)),
            Event::Window(WindowEvent::Focused),
            Event::Mouse(MouseEvent::CursorEntered),
        ]
    );
    assert_eq!(el.window.info, expected_info);
    assert_eq!(el.handler.frames, 1);
}

#[test]
fn logical_size_is_physical_divided_by_scale() {
    // Two resize notifications in a row at a fixed 2.0 scale: each
    // reported snapshot divides the physical size by the scale, and
    // the scale itself never changes.
    let mut el = fresh_loop(10, 10, 2000, None);
    el.start();
    let batch = vec![
        NativeEvent::Configure { width: 1000, height: 500 },
        NativeEvent::Configure { width: 301, height: 99 },
    ];
    el.pump(&batch, false);
    let events = &el.handler.events;
    match (events[1], events[2]) {
        (
            Event::Window(WindowEvent::Resized(first)),
            Event::Window(WindowEvent::Resized(second)),
        ) => {
            assert_eq!(first.logical_size(), Size::new(500, 250));
            assert_eq!(first.scale(), Scale::new(2000));
            // 301 * 1000 + 1000, divided by 2000, is 151 (150.5 rounded up).
            assert_eq!(second.logical_size(), Size::new(151, 50));
            assert_eq!(second.scale(), Scale::new(2000));
        }
        other => panic!("expected two resizes, got {:?}", other),
    }
}

#[test]
fn motion_coordinates_arrive_in_logical_pixels() {
    let mut el = fresh_loop(100, 100, 2000, None);
    el.start();
    let batch = vec![NativeEvent::Motion { x: 300, y: -10, state: 0 }];
    el.pump(&batch, false);
    assert_eq!(
        el.handler.events[1],
        Event::Mouse(MouseEvent::CursorMoved {
            position: Point::new(150, -5),
            modifiers: Modifiers { shift: false, ctrl: false, alt: false, logo: false },
        })
    );
}

#[test]
fn close_from_handler_finishes_batch_then_closes() {
    // The handler requests closure on the focus event; the batch still
    // finishes (the key press after it is delivered), then the loop
    // enters closing and no frame tick happens.
    let mut el = fresh_loop(100, 100, 1000, None);
    el.handler.close_on = Some(Event::Window(WindowEvent::Focused));
    el.start();
    let batch = vec![NativeEvent::FocusIn, NativeEvent::KeyPress { code: 38, state: 0 }];
    let outcome = el.pump(&batch, false);
    assert!(outcome.closing);
    assert!(outcome.close_flag);
    assert_eq!(el.handler.events.len(), 3);
    assert_eq!(el.handler.frames, 0);
    assert_eq!(el.state, LoopState::Closing);
    el.finish_close();
    assert_eq!(el.state, LoopState::Terminated);
}

#[test]
fn delete_protocol_message_delivers_event_and_closes() {
    let mut el = fresh_loop(100, 100, 1000, None);
    el.start();
    let outcome = el.pump(&vec![NativeEvent::CloseProtocol], false);
    assert!(outcome.closing);
    assert!(!outcome.close_flag);
    assert_eq!(el.handler.events[1], Event::Window(WindowEvent::CloseRequested));
    assert_eq!(el.handler.frames, 0);
    assert_eq!(el.state, LoopState::Closing);
}

#[test]
fn quiet_iteration_ticks_one_frame() {
    let mut el = fresh_loop(100, 100, 1000, None);
    el.start();
    let outcome = el.pump(&Vec::new(), false);
    assert!(!outcome.closing);
    assert_eq!(el.handler.events.len(), 1);
    assert_eq!(el.handler.frames, 1);
    let outcome = el.pump(&Vec::new(), false);
    assert!(!outcome.closing);
    assert_eq!(el.handler.frames, 2);
}

#[test]
fn handle_close_request_reaches_the_loop() {
    let (parent, mut handle) = ParentHandle::new();
    let mut el = fresh_loop(100, 100, 1000, Some(parent));
    el.start();
    let signal = el.parent_signaled();
    assert!(!signal);
    let outcome = el.pump(&Vec::new(), signal);
    assert!(!outcome.closing);
    handle.close();
    let signal = el.parent_signaled();
    assert!(signal);
    let outcome = el.pump(&Vec::new(), signal);
    assert!(outcome.closing);
    assert!(!outcome.close_flag);
    assert_eq!(el.state, LoopState::Closing);
}

#[test]
fn dropped_handle_closes_the_loop_without_further_action() {
    // The initiator drops its capability without calling close: the
    // next pump iteration observes the hangup and the loop winds down
    // by itself.
    let (parent, handle) = ParentHandle::new();
    let mut el = fresh_loop(100, 100, 1000, Some(parent));
    el.start();
    drop(handle);
    let signal = el.parent_signaled();
    assert!(signal);
    let outcome = el.pump(&Vec::new(), signal);
    assert!(outcome.closing);
    el.finish_close();
    assert_eq!(el.state, LoopState::Terminated);
}

#[test]
fn window_operations_queue_native_commands() {
    let mut el = fresh_loop(100, 100, 2000, None);
    el.start();
    el.window.resize(Size::new(320, 240));
    el.window.set_mouse_cursor(MouseCursor::Hand);
    // Asking for the shape already current queues nothing.
    el.window.set_mouse_cursor(MouseCursor::Hand);
    el.window.set_mouse_position(Point::new(10, 20));
    let commands = el.take_commands();
    assert_eq!(
        commands,
        vec![
            NativeCommand::Resize { physical: PhySize::new(640, 480) },
            NativeCommand::SetCursor { cursor: MouseCursor::Hand },
            NativeCommand::WarpPointer { position: PhyPoint::new(20, 40) },
        ]
    );
    assert!(el.take_commands().is_empty());
    // The resize request does not touch the snapshot: only a native
    // notification does.
    assert_eq!(el.window.info.logical_size(), Size::new(100, 100));
}

#[test]
fn keyboard_and_focus_events_carry_through() {
    let mut el = fresh_loop(100, 100, 1000, None);
    el.start();
    // Bit 3 of the native state is the first modifier group (alt),
    // bit 6 the fourth (logo).
    let batch = vec![
        NativeEvent::KeyPress { code: 38, state: 8 },
        NativeEvent::KeyRelease { code: 38, state: 64 },
        NativeEvent::FocusOut,
        NativeEvent::Leave,
    ];
    el.pump(&batch, false);
    assert_eq!(
        el.handler.events[1..],
        [
            Event::Keyboard(KeyboardEvent::KeyPressed {
                code: 38,
                modifiers: Modifiers { shift: false, ctrl: false, alt: true, logo: false },
            }),
            Event::Keyboard(KeyboardEvent::KeyReleased {
                code: 38,
                modifiers: Modifiers { shift: false, ctrl: false, alt: false, logo: true },
            }),
            Event::Window(WindowEvent::Unfocused),
            Event::Mouse(MouseEvent::CursorLeft),
        ]
    );
}

#[test]
fn uncommon_buttons_map_to_back_forward_and_other() {
    let mut el = fresh_loop(100, 100, 1000, None);
    el.start();
    let batch = vec![
        NativeEvent::ButtonPress { button: 8, state: 0 },
        NativeEvent::ButtonRelease { button: 9, state: 0 },
        NativeEvent::ButtonPress { button: 12, state: 0 },
    ];
    el.pump(&batch, false);
    let none_mods = Modifiers { shift: false, ctrl: false, alt: false, logo: false };
    assert_eq!(
        el.handler.events[1..],
        [
            Event::Mouse(MouseEvent::ButtonPressed {
                button: MouseButton::Back,
                modifiers: none_mods,
            }),
            Event::Mouse(MouseEvent::ButtonReleased {
                button: MouseButton::Forward,
                modifiers: none_mods,
            }),
            Event::Mouse(MouseEvent::ButtonPressed {
                button: MouseButton::Other(12),
                modifiers: none_mods,
            }),
        ]
    );
}

#[test]
fn scroll_codes_translate_to_wheel_events() {
    let info = WindowInfo::from_logical_size(Size::new(10, 10), Scale::new(1000));
    let up = translate(NativeEvent::ButtonPress { button: 4, state: 0 }, &info);
    let none_mods = Modifiers { shift: false, ctrl: false, alt: false, logo: false };
    assert_eq!(
        up,
        Some(Event::Mouse(MouseEvent::WheelScrolled {
            delta: ScrollDelta { lines_x: 0, lines_y: 1 },
            modifiers: none_mods,
        }))
    );
    // Releasing a scroll code is an artifact of the native encoding
    // and is dropped.
    assert_eq!(translate(NativeEvent::ButtonRelease { button: 5, state: 0 }, &info), None);
    assert_eq!(
        translate(NativeEvent::ButtonPress { button: 3, state: 5 }, &info),
        Some(Event::Mouse(MouseEvent::ButtonPressed {
            button: MouseButton::Right,
            modifiers: Modifiers { shift: true, ctrl: true, alt: false, logo: false },
        }))
    );
}
