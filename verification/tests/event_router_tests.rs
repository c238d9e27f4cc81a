use muilib::{
    point2, Bounds, Delivery, ElementState, EventRouter, EventRouterDispatch, MouseButton,
    MouseEvent, MouseEventKind, MouseEventListener, Point2, Scalar, WindowEvent,
};

type Log = Vec<(usize, MouseEvent)>;

struct Recorder {
    id: usize,
}

impl MouseEventListener<Log> for Recorder {
    fn mouse_event(&self, event: MouseEvent, ui_state: &mut Log) {
        ui_state.push((self.id, event));
    }
}

fn s(value: i32) -> Scalar {
    Scalar::from_int(value)
}

fn at(x: i32, y: i32) -> Point2<Scalar> {
    point2(s(x), s(y))
}

fn rect(x: i32, y: i32, width: i32, height: i32) -> Bounds<Scalar> {
    Bounds::from_scalars(s(x), s(y), s(width), s(height))
}

fn moved(x: i32, y: i32) -> WindowEvent {
    WindowEvent::CursorMoved { position: at(x, y) }
}

fn pressed(button: MouseButton) -> WindowEvent {
    WindowEvent::MouseInput { state: ElementState::Pressed, button }
}

fn released(button: MouseButton) -> WindowEvent {
    WindowEvent::MouseInput { state: ElementState::Released, button }
}

fn event(kind: MouseEventKind, x: i32, y: i32) -> MouseEvent {
    MouseEvent::new(kind, at(x, y))
}

/// A router with one listener over `(0, 0, 10, 10)`.
fn one_listener() -> (EventRouter<Recorder>, EventRouterDispatch, muilib::ListenerHandle) {
    let mut router = EventRouter::new();
    let pending = EventRouterDispatch::new();
    let handle = router.register_listener(rect(0, 0, 10, 10), Recorder { id: 0 });
    (router, pending, handle)
}

#[test]
fn default_router_is_a_new_router() {
    let router: EventRouter<Recorder> = Default::default();
    assert_eq!(router.cursor_position(), None);
    assert_eq!(router.scale_factor(), Scalar::one());
    assert_eq!(router.n_slots(), 0);
}

#[test]
fn new_router_knows_nothing() {
    let router: EventRouter<Recorder> = EventRouter::new();
    assert_eq!(router.cursor_position(), None);
    assert_eq!(router.scale_factor(), Scalar::one());
    assert_eq!(router.n_slots(), 0);
    assert!(!router.is_pressed(MouseButton::Left));
    assert!(!router.is_pressed(MouseButton::Forward));
    assert_eq!(router.listener_state(0), None);
}

#[test]
fn registering_fills_the_next_slot() {
    let mut router = EventRouter::new();
    let first = router.register_listener(rect(0, 0, 10, 10), Recorder { id: 0 });
    let second = router.register_listener(rect(5, 5, 1, 1), Recorder { id: 1 });
    assert_eq!(first.index(), 0);
    assert_eq!(second.index(), 1);
    assert_eq!(router.n_slots(), 2);
    let state = router.listener_state(1).unwrap();
    assert_eq!(state.bounds, rect(5, 5, 1, 1));
    assert!(!state.is_hovered);
    assert_eq!(state.button_states, [false; 5]);
}

#[test]
fn moving_in_starts_hovering_once_and_moving_out_finishes_it_once() {
    let (mut router, mut pending, _handle) = one_listener();
    let mut log = Log::new();
    assert!(!router.window_event(&mut pending, &moved(20, 20), &mut log));
    assert!(log.is_empty());
    assert!(router.window_event(&mut pending, &moved(5, 5), &mut log));
    assert_eq!(log, vec![(0, event(MouseEventKind::HoveringStart, 5, 5))]);
    // Staying inside tells nothing new.
    assert!(!router.window_event(&mut pending, &moved(6, 6), &mut log));
    assert_eq!(log.len(), 1);
    assert!(router.window_event(&mut pending, &moved(20, 20), &mut log));
    assert_eq!(
        log,
        vec![
            (0, event(MouseEventKind::HoveringStart, 5, 5)),
            (0, event(MouseEventKind::HoveringFinish, 20, 20)),
        ]
    );
    assert!(!router.window_event(&mut pending, &moved(30, 30), &mut log));
    assert_eq!(log.len(), 2);
}

#[test]
fn press_inside_is_button_down_and_release_is_button_up() {
    let (mut router, mut pending, _handle) = one_listener();
    let mut log = Log::new();
    assert!(router.window_event(&mut pending, &moved(5, 5), &mut log));
    log.clear();
    assert!(router.window_event(&mut pending, &pressed(MouseButton::Left), &mut log));
    assert_eq!(
        log,
        vec![(
            0,
            event(
                MouseEventKind::ButtonDown { button: MouseButton::Left, started_inside: true },
                5,
                5
            )
        )]
    );
    assert!(router.is_pressed(MouseButton::Left));
    // Holding the button tells nothing new.
    assert!(!router.window_event(&mut pending, &moved(6, 6), &mut log));
    log.clear();
    assert!(router.window_event(&mut pending, &released(MouseButton::Left), &mut log));
    assert_eq!(
        log,
        vec![(
            0,
            event(MouseEventKind::ButtonUp { button: MouseButton::Left, inside: true }, 6, 6)
        )]
    );
    // The release is told once.
    assert!(!router.window_event(&mut pending, &released(MouseButton::Left), &mut log));
    assert!(!router.window_event(&mut pending, &WindowEvent::RedrawRequested, &mut log));
    assert_eq!(log.len(), 1);
}

#[test]
fn release_outside_is_button_up_outside() {
    let (mut router, mut pending, _handle) = one_listener();
    let mut log = Log::new();
    assert!(router.window_event(&mut pending, &moved(5, 5), &mut log));
    assert!(router.window_event(&mut pending, &pressed(MouseButton::Left), &mut log));
    assert!(router.window_event(&mut pending, &moved(20, 20), &mut log));
    log.clear();
    assert!(router.window_event(&mut pending, &released(MouseButton::Left), &mut log));
    assert_eq!(
        log,
        vec![(
            0,
            event(MouseEventKind::ButtonUp { button: MouseButton::Left, inside: false }, 20, 20)
        )]
    );
}

#[test]
fn press_outside_is_not_told_until_the_cursor_comes_in() {
    let (mut router, mut pending, _handle) = one_listener();
    let mut log = Log::new();
    assert!(!router.window_event(&mut pending, &moved(50, 50), &mut log));
    // The press outside is no event for the listener, and it is not recorded.
    assert!(!router.window_event(&mut pending, &pressed(MouseButton::Left), &mut log));
    assert!(log.is_empty());
    assert_eq!(router.listener_state(0).unwrap().button_states, [false; 5]);
    // Dragging in with the button held: the press is told as one that did not
    // start inside, never as one that did.
    assert!(router.window_event(&mut pending, &moved(5, 5), &mut log));
    assert_eq!(
        log,
        vec![
            (0, event(MouseEventKind::HoveringStart, 5, 5)),
            (
                0,
                event(
                    MouseEventKind::ButtonDown {
                        button: MouseButton::Left,
                        started_inside: false
                    },
                    5,
                    5
                )
            ),
        ]
    );
    log.clear();
    assert!(router.window_event(&mut pending, &released(MouseButton::Left), &mut log));
    assert_eq!(
        log,
        vec![(
            0,
            event(MouseEventKind::ButtonUp { button: MouseButton::Left, inside: true }, 5, 5)
        )]
    );
}

#[test]
fn press_and_release_outside_tell_nothing() {
    let (mut router, mut pending, _handle) = one_listener();
    let mut log = Log::new();
    assert!(!router.window_event(&mut pending, &moved(50, 50), &mut log));
    assert!(!router.window_event(&mut pending, &pressed(MouseButton::Left), &mut log));
    assert!(!router.window_event(&mut pending, &released(MouseButton::Left), &mut log));
    assert!(log.is_empty());
}

#[test]
fn dropped_listener_is_never_told_again() {
    let (mut router, mut pending, handle) = one_listener();
    let mut log = Log::new();
    assert!(router.window_event(&mut pending, &moved(5, 5), &mut log));
    assert_eq!(log.len(), 1);
    handle.deregister(&mut pending);
    assert!(!pending.is_empty());
    log.clear();
    assert!(!router.window_event(&mut pending, &moved(20, 20), &mut log));
    assert!(pending.is_empty());
    assert_eq!(router.listener_state(0), None);
    assert_eq!(router.n_slots(), 1);
    assert!(!router.window_event(&mut pending, &moved(5, 5), &mut log));
    assert!(!router.window_event(&mut pending, &pressed(MouseButton::Left), &mut log));
    assert!(!router.window_event(&mut pending, &released(MouseButton::Left), &mut log));
    assert!(!router.window_event(&mut pending, &WindowEvent::RedrawRequested, &mut log));
    assert!(log.is_empty());
}

#[test]
fn removal_waits_for_the_next_scan() {
    let (mut router, mut pending, handle) = one_listener();
    handle.deregister(&mut pending);
    assert!(router.listener_state(0).is_some());
    let mut log = Log::new();
    // An event that causes no scan leaves the queue alone.
    assert!(!router.window_event(&mut pending, &WindowEvent::Other, &mut log));
    assert!(router.listener_state(0).is_some());
    assert!(!pending.is_empty());
    // A redraw request flushes the queue even while the cursor is unknown.
    assert!(!router.window_event(&mut pending, &WindowEvent::RedrawRequested, &mut log));
    assert_eq!(router.listener_state(0), None);
    assert!(pending.is_empty());
}

#[test]
fn removed_slots_are_not_used_again() {
    let mut router = EventRouter::new();
    let mut pending = EventRouterDispatch::new();
    let first = router.register_listener(rect(0, 0, 10, 10), Recorder { id: 0 });
    first.deregister(&mut pending);
    let mut log = Log::new();
    assert!(!router.window_event(&mut pending, &WindowEvent::RedrawRequested, &mut log));
    let second = router.register_listener(rect(0, 0, 10, 10), Recorder { id: 1 });
    assert_eq!(second.index(), 1);
    assert_eq!(router.n_slots(), 2);
    assert!(router.window_event(&mut pending, &moved(5, 5), &mut log));
    assert_eq!(log, vec![(1, event(MouseEventKind::HoveringStart, 5, 5))]);
}

#[test]
fn removing_twice_or_what_is_not_there_is_harmless() {
    let (mut router, mut pending, handle) = one_listener();
    pending.deregister(handle.index());
    pending.deregister(handle.index());
    pending.deregister(17);
    pending.update_bounds(17, rect(0, 0, 1, 1));
    let mut log = Log::new();
    assert!(!router.window_event(&mut pending, &moved(5, 5), &mut log));
    assert_eq!(router.n_slots(), 1);
    assert_eq!(router.listener_state(0), None);
    // New bounds for a listener that is gone change nothing.
    handle.update_bounds(&mut pending, rect(0, 0, 100, 100));
    assert!(!router.window_event(&mut pending, &moved(6, 6), &mut log));
    assert_eq!(router.listener_state(0), None);
    assert!(log.is_empty());
}

#[test]
fn new_bounds_apply_from_the_next_scan() {
    let (mut router, mut pending, handle) = one_listener();
    let mut log = Log::new();
    assert!(!router.window_event(&mut pending, &moved(20, 20), &mut log));
    handle.update_bounds(&mut pending, rect(15, 15, 10, 10));
    assert_eq!(router.listener_state(0).unwrap().bounds, rect(0, 0, 10, 10));
    assert!(router.window_event(&mut pending, &WindowEvent::RedrawRequested, &mut log));
    assert_eq!(router.listener_state(0).unwrap().bounds, rect(15, 15, 10, 10));
    assert_eq!(log, vec![(0, event(MouseEventKind::HoveringStart, 20, 20))]);
    assert!(pending.is_empty());
}

#[test]
fn later_bounds_replace_earlier_ones() {
    let (mut router, mut pending, handle) = one_listener();
    handle.update_bounds(&mut pending, rect(1, 1, 1, 1));
    handle.update_bounds(&mut pending, rect(2, 2, 2, 2));
    let mut log = Log::new();
    assert!(!router.window_event(&mut pending, &WindowEvent::RedrawRequested, &mut log));
    assert_eq!(router.listener_state(0).unwrap().bounds, rect(2, 2, 2, 2));
}

#[test]
fn leaving_the_window_finishes_no_hovering() {
    let (mut router, mut pending, _handle) = one_listener();
    let mut log = Log::new();
    assert!(router.window_event(&mut pending, &moved(5, 5), &mut log));
    log.clear();
    assert!(!router.window_event(&mut pending, &WindowEvent::CursorLeft, &mut log));
    assert!(log.is_empty());
    assert_eq!(router.cursor_position(), None);
    assert!(router.listener_state(0).unwrap().is_hovered);
    // While the cursor is away, button changes are noted but not told.
    assert!(!router.window_event(&mut pending, &pressed(MouseButton::Right), &mut log));
    assert!(router.is_pressed(MouseButton::Right));
    assert!(log.is_empty());
    // Coming back outside the listener finishes the hovering then.
    assert!(router.window_event(&mut pending, &moved(20, 20), &mut log));
    assert_eq!(log, vec![(0, event(MouseEventKind::HoveringFinish, 20, 20))]);
}

#[test]
fn cursor_positions_are_divided_by_the_scale_factor() {
    let (mut router, mut pending, _handle) = one_listener();
    let mut log = Log::new();
    let changed = WindowEvent::ScaleFactorChanged { scale_factor: s(2) };
    assert!(!router.window_event(&mut pending, &changed, &mut log));
    assert_eq!(router.scale_factor(), s(2));
    // Physical (16, 16) is logical (8, 8), which is inside.
    assert!(router.window_event(&mut pending, &moved(16, 16), &mut log));
    assert_eq!(router.cursor_position(), Some(at(8, 8)));
    assert_eq!(log, vec![(0, event(MouseEventKind::HoveringStart, 8, 8))]);
    // Physical (22, 22) is logical (11, 11), which is outside.
    assert!(router.window_event(&mut pending, &moved(22, 22), &mut log));
    assert_eq!(log.len(), 2);
    assert_eq!(log[1], (0, event(MouseEventKind::HoveringFinish, 11, 11)));
}

#[test]
fn untracked_buttons_and_other_events_are_passed_over() {
    let (mut router, mut pending, _handle) = one_listener();
    let mut log = Log::new();
    assert!(router.window_event(&mut pending, &moved(5, 5), &mut log));
    log.clear();
    assert!(!router.window_event(&mut pending, &pressed(MouseButton::Other(7)), &mut log));
    assert!(!router.window_event(&mut pending, &WindowEvent::Other, &mut log));
    assert!(log.is_empty());
    assert!(!router.is_pressed(MouseButton::Other(7)));
}

#[test]
fn every_tracked_button_is_told_under_its_own_name() {
    let buttons = [
        MouseButton::Left,
        MouseButton::Right,
        MouseButton::Middle,
        MouseButton::Back,
        MouseButton::Forward,
    ];
    for (slot, button) in buttons.iter().enumerate() {
        assert_eq!(button.slot(), Some(slot));
        assert_eq!(MouseButton::at(slot), *button);
        let (mut router, mut pending, _handle) = one_listener();
        let mut log = Log::new();
        assert!(router.window_event(&mut pending, &moved(5, 5), &mut log));
        log.clear();
        assert!(router.window_event(&mut pending, &pressed(*button), &mut log));
        assert!(router.window_event(&mut pending, &released(*button), &mut log));
        assert_eq!(
            log,
            vec![
                (
                    0,
                    event(
                        MouseEventKind::ButtonDown { button: *button, started_inside: true },
                        5,
                        5
                    )
                ),
                (0, event(MouseEventKind::ButtonUp { button: *button, inside: true }, 5, 5)),
            ]
        );
    }
    assert_eq!(MouseButton::Other(3).slot(), None);
}

#[test]
fn listeners_are_told_in_the_order_of_their_slots() {
    let mut router = EventRouter::new();
    let mut pending = EventRouterDispatch::new();
    let _a = router.register_listener(rect(0, 0, 10, 10), Recorder { id: 10 });
    let _b = router.register_listener(rect(20, 20, 10, 10), Recorder { id: 11 });
    let _c = router.register_listener(rect(4, 4, 2, 2), Recorder { id: 12 });
    let mut log = Log::new();
    assert!(!router.window_event(&mut pending, &pressed(MouseButton::Left), &mut log));
    assert!(!router.window_event(&mut pending, &pressed(MouseButton::Middle), &mut log));
    assert!(router.window_event(&mut pending, &moved(5, 5), &mut log));
    let down = |button| MouseEventKind::ButtonDown { button, started_inside: false };
    assert_eq!(
        log,
        vec![
            (10, event(MouseEventKind::HoveringStart, 5, 5)),
            (10, event(down(MouseButton::Left), 5, 5)),
            (10, event(down(MouseButton::Middle), 5, 5)),
            (12, event(MouseEventKind::HoveringStart, 5, 5)),
            (12, event(down(MouseButton::Left), 5, 5)),
            (12, event(down(MouseButton::Middle), 5, 5)),
        ]
    );
}

#[test]
fn scan_hands_out_what_the_listeners_are_owed() {
    let (mut router, mut pending, _handle) = one_listener();
    assert!(router.note_event(&moved(10, 0)));
    let deliveries = router.scan_events(&mut pending);
    assert_eq!(
        deliveries,
        vec![Delivery { listener: 0, event: event(MouseEventKind::HoveringStart, 10, 0) }]
    );
    assert!(!router.note_event(&WindowEvent::Other));
    assert!(router.scan_events(&mut pending).is_empty());
}

#[test]
fn boxed_listeners_of_different_kinds_share_a_router() {
    struct Counter;
    impl MouseEventListener<Log> for Counter {
        fn mouse_event(&self, event: MouseEvent, ui_state: &mut Log) {
            ui_state.push((99, event));
        }
    }
    let mut router: EventRouter<Box<dyn MouseEventListener<Log>>> = EventRouter::new();
    let mut pending = EventRouterDispatch::new();
    let _a = router.register_listener(rect(0, 0, 10, 10), Box::new(Recorder { id: 1 }));
    let _b = router.register_listener(rect(0, 0, 10, 10), Box::new(Counter));
    let mut log = Log::new();
    assert!(router.window_event(&mut pending, &moved(1, 1), &mut log));
    assert_eq!(
        log,
        vec![
            (1, event(MouseEventKind::HoveringStart, 1, 1)),
            (99, event(MouseEventKind::HoveringStart, 1, 1)),
        ]
    );
}

#[test]
fn one_listener_scan_follows_the_record() {
    let mut state = muilib::ListenerState {
        bounds: rect(0, 0, 10, 10),
        is_hovered: true,
        button_states: [true, false, false, false, true],
    };
    let mut deliveries = Vec::new();
    muilib::event_router::scan_listener(
        &mut state,
        3,
        at(20, 20),
        &[false, true, false, false, true],
        &mut deliveries,
    );
    assert_eq!(
        deliveries,
        vec![
            Delivery { listener: 3, event: event(MouseEventKind::HoveringFinish, 20, 20) },
            Delivery {
                listener: 3,
                event: event(
                    MouseEventKind::ButtonUp { button: MouseButton::Left, inside: false },
                    20,
                    20
                )
            },
        ]
    );
    assert!(!state.is_hovered);
    assert_eq!(state.button_states, [false, false, false, false, true]);
}

#[test]
fn element_state_tells_whether_it_is_pressed() {
    assert!(ElementState::Pressed.is_pressed());
    assert!(!ElementState::Released.is_pressed());
}

#[test]
fn events_tell_whether_they_cause_a_scan() {
    assert!(moved(1, 1).causes_scan());
    assert!(WindowEvent::CursorLeft.causes_scan());
    assert!(WindowEvent::RedrawRequested.causes_scan());
    assert!(WindowEvent::ScaleFactorChanged { scale_factor: s(2) }.causes_scan());
    assert!(pressed(MouseButton::Back).causes_scan());
    assert!(!pressed(MouseButton::Other(1)).causes_scan());
    assert!(!WindowEvent::Other.causes_scan());
}

#[test]
fn listener_may_give_up_a_handle_while_it_is_told() {
    // What a listener asks for while it is called is queued and applied by the
    // next scan.
    let (mut router, mut pending, handle) = one_listener();
    let mut log = Log::new();
    assert!(router.window_event(&mut pending, &moved(5, 5), &mut log));
    let mut later = EventRouterDispatch::new();
    handle.deregister(&mut later);
    assert!(router.window_event(&mut pending, &moved(20, 20), &mut log));
    assert_eq!(log.len(), 2);
    assert!(!router.window_event(&mut later, &moved(5, 5), &mut log));
    assert_eq!(log.len(), 2);
}
