//! Routing of window input to rectangular mouse listeners.
//!
//! The router keeps the cursor position, the state of five mouse buttons and a list
//! of listener slots. Every window event that concerns it updates that state and
//! then scans the listeners, which yields the mouse events that the listeners are
//! owed. Requests to remove a listener or to move its rectangle are queued in an
//! [`EventRouterDispatch`] and take effect at the start of the next scan.
//!
//! Two choices of this router are worth knowing:
//!
//! - While the cursor is outside the window its position is unknown, and a scan
//!   then only applies the queued requests. A listener that was hovered when the
//!   cursor left is not told of the end of the hovering then; it is told when the
//!   cursor is next seen outside its rectangle.
//! - A button that is pressed while the cursor is outside a listener is no event
//!   for that listener. If the cursor then moves in with the button still held,
//!   the listener is told of a press that did not start inside, and later of
//!   the release.
use vstd::prelude::*;
use std::collections::HashMap;
use std::collections::HashSet;
use crate::bounds::{Bounds, Point2};
use crate::scalar::Scalar;

verus! {

broadcast use vstd::std_specs::hash::group_hash_axioms;

/// Number of mouse buttons that the router tracks.
pub const N_BUTTONS: usize = 5;

#[derive(Clone, Copy, Debug, PartialEq, Eq, Structural)]
pub enum MouseButton {
    Left,
    Right,
    Middle,
    Back,
    Forward,
    Other(u16),
}

impl MouseButton {
    /// The place of a tracked button in the arrays of button states.
    pub open spec fn slot_spec(self) -> Option<usize> {
        match self {
            MouseButton::Left => Some(0usize),
            MouseButton::Right => Some(1usize),
            MouseButton::Middle => Some(2usize),
            MouseButton::Back => Some(3usize),
            MouseButton::Forward => Some(4usize),
            MouseButton::Other(_) => None,
        }
    }

    /// The tracked button at place `slot`.
    pub open spec fn at_spec(slot: usize) -> MouseButton {
        if slot == 0 {
            MouseButton::Left
        } else if slot == 1 {
            MouseButton::Right
        } else if slot == 2 {
            MouseButton::Middle
        } else if slot == 3 {
            MouseButton::Back
        } else {
            MouseButton::Forward
        }
    }

    #[verifier::when_used_as_spec(slot_spec)]
    pub fn slot(self) -> (slot: Option<usize>)
        ensures
            slot == self.slot_spec(),
            slot matches Some(i) ==> i < N_BUTTONS && MouseButton::at_spec(i) == self,
    {
        match self {
            MouseButton::Left => Some(0),
            MouseButton::Right => Some(1),
            MouseButton::Middle => Some(2),
            MouseButton::Back => Some(3),
            MouseButton::Forward => Some(4),
            MouseButton::Other(_) => None,
        }
    }

    #[verifier::when_used_as_spec(at_spec)]
    pub fn at(slot: usize) -> (button: MouseButton)
        ensures
            button == MouseButton::at_spec(slot),
            slot < N_BUTTONS ==> button.slot_spec() == Some(slot),
    {
        if slot == 0 {
            MouseButton::Left
        } else if slot == 1 {
            MouseButton::Right
        } else if slot == 2 {
            MouseButton::Middle
        } else if slot == 3 {
            MouseButton::Back
        } else {
            MouseButton::Forward
        }
    }
}

#[derive(Clone, Copy, Debug, PartialEq, Eq, Structural)]
pub enum ElementState {
    Pressed,
    Released,
}

impl ElementState {
    pub open spec fn is_pressed_spec(self) -> bool {
        self == ElementState::Pressed
    }

    #[verifier::when_used_as_spec(is_pressed_spec)]
    pub fn is_pressed(self) -> (pressed: bool)
        ensures
            pressed == self.is_pressed_spec(),
    {
        match self {
            ElementState::Pressed => true,
            ElementState::Released => false,
        }
    }
}

/// What the window reports to the router. Positions are in physical pixels.
#[derive(Clone, Copy, Debug, PartialEq, Eq)]
pub enum WindowEvent {
    ScaleFactorChanged { scale_factor: Scalar },
    CursorMoved { position: Point2<Scalar> },
    CursorLeft,
    MouseInput { state: ElementState, button: MouseButton },
    RedrawRequested,
    /// Any event that the router has no use for.
    Other,
}

#[derive(Clone, Copy, Debug, PartialEq, Eq)]
pub enum MouseEventKind {
    HoveringStart,
    HoveringFinish,
    ButtonDown {
        button: MouseButton,
        /// `true` if the cursor was already over the listener before the scan that
        /// reports the press, `false` if it has only now moved in with the button held.
        started_inside: bool,
    },
    ButtonUp { button: MouseButton, inside: bool },
}

#[derive(Clone, Copy, Debug, PartialEq, Eq)]
pub struct MouseEvent {
    pub kind: MouseEventKind,
    pub cursor_position: Point2<Scalar>,
}

impl MouseEvent {
    pub fn new(kind: MouseEventKind, cursor_position: Point2<Scalar>) -> (event: Self)
        ensures
            event == (MouseEvent { kind, cursor_position }),
    {
        MouseEvent { kind, cursor_position }
    }
}

/// A mouse event together with the slot of the listener that is owed it.
#[derive(Clone, Copy, Debug, PartialEq, Eq)]
pub struct Delivery {
    pub listener: usize,
    pub event: MouseEvent,
}

/// An observer of the mouse events of one rectangle.
pub trait MouseEventListener<UiState> {
    fn mouse_event(&self, event: MouseEvent, ui_state: &mut UiState);
}

impl<UiState, L: MouseEventListener<UiState> + ?Sized> MouseEventListener<UiState> for Box<L> {
    /// Tells the listener in the box.
    fn mouse_event(&self, event: MouseEvent, ui_state: &mut UiState)
        ensures
            exists|state: &mut UiState|
                {
                    &&& *state == *old(ui_state)
                    &&& *final(state) == *final(ui_state)
                    &&& #[trigger] call_ensures(L::mouse_event, (&**self, event, state), ())
                },
    {
        (**self).mouse_event(event, ui_state)
    }
}

/// What the router records of one listener.
#[derive(Clone, Copy, Debug, PartialEq, Eq)]
pub struct ListenerState {
    /// The rectangle of the listener, in logical units.
    pub bounds: Bounds<Scalar>,
    /// Was the cursor over the listener at the last scan?
    pub is_hovered: bool,
    /// The buttons whose press the listener has been told of and whose release it has not.
    pub button_states: [bool; 5],
}

pub struct ListenerView {
    pub bounds: Bounds<Scalar>,
    pub is_hovered: bool,
    pub button_states: Seq<bool>,
}

impl View for ListenerState {
    type V = ListenerView;

    open spec fn view(&self) -> ListenerView {
        ListenerView {
            bounds: self.bounds,
            is_hovered: self.is_hovered,
            button_states: self.button_states@,
        }
    }
}

/// The event, if any, that one button owes a listener.
pub open spec fn button_event(
    pressed: bool,
    recorded: bool,
    inside: bool,
    hovered_before: bool,
    button: MouseButton,
) -> Option<MouseEventKind> {
    if !pressed && recorded {
        Some(MouseEventKind::ButtonUp { button, inside })
    } else if pressed && !recorded && inside {
        Some(MouseEventKind::ButtonDown { button, started_inside: hovered_before })
    } else {
        None
    }
}

/// What a listener records of one button after a scan.
pub open spec fn button_recorded_after(pressed: bool, recorded: bool, inside: bool) -> bool {
    if !pressed && recorded {
        false
    } else if pressed && !recorded && inside {
        true
    } else {
        recorded
    }
}

/// The event, if any, that a change of hovering owes a listener.
pub open spec fn hover_event(hovered_before: bool, inside: bool) -> Option<MouseEventKind> {
    if inside && !hovered_before {
        Some(MouseEventKind::HoveringStart)
    } else if !inside && hovered_before {
        Some(MouseEventKind::HoveringFinish)
    } else {
        None
    }
}

pub open spec fn delivery_of(listener: usize, kind: MouseEventKind, cursor: Point2<Scalar>) -> Delivery {
    Delivery { listener, event: MouseEvent { kind, cursor_position: cursor } }
}

/// `deliveries` with the event `kind` for `listener` behind it, where there is one.
pub open spec fn with_event(
    deliveries: Seq<Delivery>,
    listener: usize,
    kind: Option<MouseEventKind>,
    cursor: Point2<Scalar>,
) -> Seq<Delivery> {
    match kind {
        Some(kind) => deliveries.push(delivery_of(listener, kind, cursor)),
        None => deliveries,
    }
}

/// The events that the first `n` buttons owe the listener in slot `listener`, in
/// the order of the buttons.
pub open spec fn button_deliveries(
    listener: usize,
    l: ListenerView,
    cursor: Point2<Scalar>,
    pressed: Seq<bool>,
    n: nat,
) -> Seq<Delivery>
    decreases n,
{
    if n == 0 {
        Seq::empty()
    } else {
        let i = (n - 1) as nat;
        with_event(
            button_deliveries(listener, l, cursor, pressed, i),
            listener,
            button_event(
                pressed[i as int],
                l.button_states[i as int],
                l.bounds.contains_spec(cursor),
                l.is_hovered,
                MouseButton::at_spec(i as usize),
            ),
            cursor,
        )
    }
}

/// The events that one scan owes the listener in slot `listener`: first the change
/// of hovering, then the buttons in their order.
pub open spec fn listener_deliveries(
    listener: usize,
    l: ListenerView,
    cursor: Point2<Scalar>,
    pressed: Seq<bool>,
) -> Seq<Delivery> {
    with_event(
        Seq::empty(),
        listener,
        hover_event(l.is_hovered, l.bounds.contains_spec(cursor)),
        cursor,
    ) + button_deliveries(listener, l, cursor, pressed, N_BUTTONS as nat)
}

/// What the router records of a listener after a scan with the cursor at `cursor`.
pub open spec fn listener_after(l: ListenerView, cursor: Point2<Scalar>, pressed: Seq<bool>) -> ListenerView {
    ListenerView {
        bounds: l.bounds,
        is_hovered: l.bounds.contains_spec(cursor),
        button_states: Seq::new(
            N_BUTTONS as nat,
            |i: int| button_recorded_after(pressed[i], l.button_states[i], l.bounds.contains_spec(cursor)),
        ),
    }
}

/// Scans one listener: brings its record up to date and appends the events it is
/// owed to `deliveries`.
pub fn scan_listener(
    state: &mut ListenerState,
    listener: usize,
    cursor_position: Point2<Scalar>,
    button_states: &[bool; 5],
    deliveries: &mut Vec<Delivery>,
)
    ensures
        final(state)@ == listener_after(old(state)@, cursor_position, button_states@),
        final(deliveries)@ == old(deliveries)@ + listener_deliveries(
            listener,
            old(state)@,
            cursor_position,
            button_states@,
        ),
{
    let ghost before = state@;
    let ghost delivered = deliveries@;
    let inside = state.bounds.contains(cursor_position);
    let is_hovered_before = state.is_hovered;
    if inside && !state.is_hovered {
        state.is_hovered = true;
        deliveries.push(Delivery {
            listener,
            event: MouseEvent::new(MouseEventKind::HoveringStart, cursor_position),
        });
    } else if !inside && state.is_hovered {
        state.is_hovered = false;
        deliveries.push(Delivery {
            listener,
            event: MouseEvent::new(MouseEventKind::HoveringFinish, cursor_position),
        });
    }
    let ghost hover = deliveries@;
    assert(hover == delivered + with_event(
        Seq::empty(),
        listener,
        hover_event(before.is_hovered, inside),
        cursor_position,
    ));
    let mut i: usize = 0;
    while i < N_BUTTONS
        invariant
            i <= N_BUTTONS,
            state.bounds == before.bounds,
            state.is_hovered == inside,
            inside == before.bounds.contains_spec(cursor_position),
            is_hovered_before == before.is_hovered,
            before.button_states.len() == N_BUTTONS,
            forall|j: int|
                0 <= j < i ==> state.button_states@[j] == button_recorded_after(
                    button_states@[j],
                    before.button_states[j],
                    inside,
                ),
            forall|j: int| i <= j < N_BUTTONS ==> state.button_states@[j] == before.button_states[j],
            deliveries@ == hover + button_deliveries(
                listener,
                before,
                cursor_position,
                button_states@,
                i as nat,
            ),
        decreases N_BUTTONS - i,
    {
        let button = MouseButton::at(i);
        let pressed = button_states[i];
        let recorded = state.button_states[i];
        if !pressed && recorded {
            state.button_states[i] = false;
            deliveries.push(Delivery {
                listener,
                event: MouseEvent::new(MouseEventKind::ButtonUp { button, inside }, cursor_position),
            });
        } else if pressed && !recorded && inside {
            state.button_states[i] = true;
            deliveries.push(Delivery {
                listener,
                event: MouseEvent::new(
                    MouseEventKind::ButtonDown { button, started_inside: is_hovered_before },
                    cursor_position,
                ),
            });
        }
        i += 1;
    }
    assert(state@.button_states =~= listener_after(before, cursor_position, button_states@).button_states);
}


/// A listener in its slot: the router's record of it and the object to call.
pub struct Listener<L> {
    pub state: ListenerState,
    pub object: L,
}

/// The queued requests of listener handles.
pub struct PendingView {
    pub bounds_updates: Map<usize, Bounds<Scalar>>,
    pub deregisters: Set<usize>,
}

/// Requests of listener handles that wait for the next scan: the slots to clear, and
/// the new rectangle of each slot that is to move.
pub struct EventRouterDispatch {
    bounds_updates: HashMap<usize, Bounds<Scalar>>,
    deregisters: HashSet<usize>,
}

impl View for EventRouterDispatch {
    type V = PendingView;

    closed spec fn view(&self) -> PendingView {
        PendingView { bounds_updates: self.bounds_updates@, deregisters: self.deregisters@ }
    }
}

impl PendingView {
    pub open spec fn is_empty(self) -> bool {
        self.bounds_updates == Map::<usize, Bounds<Scalar>>::empty() && self.deregisters
            == Set::<usize>::empty()
    }
}

impl EventRouterDispatch {
    pub fn new() -> (pending: Self)
        ensures
            pending@.is_empty(),
    {
        EventRouterDispatch { bounds_updates: HashMap::new(), deregisters: HashSet::new() }
    }

    /// Queues the removal of the listener in slot `index`.
    pub fn deregister(&mut self, index: usize)
        ensures
            final(self)@.deregisters == old(self)@.deregisters.insert(index),
            final(self)@.bounds_updates == old(self)@.bounds_updates,
    {
        self.deregisters.insert(index);
    }

    /// Queues new bounds for the listener in slot `index`; a later request for the
    /// same slot replaces an earlier one.
    pub fn update_bounds(&mut self, index: usize, bounds: Bounds<Scalar>)
        ensures
            final(self)@.bounds_updates == old(self)@.bounds_updates.insert(index, bounds),
            final(self)@.deregisters == old(self)@.deregisters,
    {
        self.bounds_updates.insert(index, bounds);
    }

    pub fn is_empty(&self) -> (empty: bool)
        ensures
            empty == self@.is_empty(),
    {
        let empty = self.bounds_updates.is_empty() && self.deregisters.is_empty();
        proof {
            if self.bounds_updates@.len() == 0 {
                assert(self.bounds_updates@ =~= Map::<usize, Bounds<Scalar>>::empty());
            }

        }
        empty
    }
}

/// The state of a router as the contracts see it.
pub struct RouterView {
    /// `None` while the position of the cursor is unknown.
    pub cursor_position: Option<Point2<Scalar>>,
    pub scale_factor: Scalar,
    /// One entry per slot; `None` marks a slot whose listener was removed.
    pub listeners: Seq<Option<ListenerView>>,
    pub button_states: Seq<bool>,
}

/// A slot after the queued removals were applied to it.
pub open spec fn deregistered_slot(slot: Option<ListenerView>, index: usize, deregisters: Set<usize>) -> Option<
    ListenerView,
> {
    if deregisters.contains(index) {
        None
    } else {
        slot
    }
}

/// A slot after the queued changes of bounds were applied to it.
pub open spec fn moved_slot(
    slot: Option<ListenerView>,
    index: usize,
    bounds_updates: Map<usize, Bounds<Scalar>>,
) -> Option<ListenerView> {
    match slot {
        Some(l) => if bounds_updates.contains_key(index) {
            Some(
                ListenerView {
                    bounds: bounds_updates[index],
                    is_hovered: l.is_hovered,
                    button_states: l.button_states,
                },
            )
        } else {
            Some(l)
        },
        None => None,
    }
}

/// A slot after the queued requests were applied to it: removals first, then
/// changes of bounds.
pub open spec fn flushed_slot(slot: Option<ListenerView>, index: usize, pending: PendingView) -> Option<
    ListenerView,
> {
    moved_slot(
        deregistered_slot(slot, index, pending.deregisters),
        index,
        pending.bounds_updates,
    )
}

/// The slots after the queued requests were applied.
pub open spec fn flushed(listeners: Seq<Option<ListenerView>>, pending: PendingView) -> Seq<
    Option<ListenerView>,
> {
    Seq::new(listeners.len(), |i: int| flushed_slot(listeners[i], i as usize, pending))
}

/// A slot after a scan with the cursor at `cursor`.
pub open spec fn scanned_slot(slot: Option<ListenerView>, cursor: Point2<Scalar>, pressed: Seq<bool>) -> Option<
    ListenerView,
> {
    match slot {
        Some(l) => Some(listener_after(l, cursor, pressed)),
        None => None,
    }
}

/// The events that a scan owes the listeners in the first `n` slots, in the order
/// of the slots.
pub open spec fn deliveries_upto(
    listeners: Seq<Option<ListenerView>>,
    cursor: Point2<Scalar>,
    pressed: Seq<bool>,
    n: nat,
) -> Seq<Delivery>
    decreases n,
{
    if n == 0 {
        Seq::empty()
    } else {
        let i = (n - 1) as nat;
        let before = deliveries_upto(listeners, cursor, pressed, i);
        match listeners[i as int] {
            Some(l) => before + listener_deliveries(i as usize, l, cursor, pressed),
            None => before,
        }
    }
}

impl RouterView {
    /// The state after a scan: the queued requests are applied, and where the
    /// cursor position is known every live listener is brought up to date.
    pub open spec fn after_scan(self, pending: PendingView) -> RouterView {
        let live = flushed(self.listeners, pending);
        RouterView {
            cursor_position: self.cursor_position,
            scale_factor: self.scale_factor,
            listeners: match self.cursor_position {
                Some(cursor) => Seq::new(
                    live.len(),
                    |i: int| scanned_slot(live[i], cursor, self.button_states),
                ),
                None => live,
            },
            button_states: self.button_states,
        }
    }

    /// The events that a scan owes the listeners; none while the cursor position is
    /// unknown.
    pub open spec fn scan_deliveries(self, pending: PendingView) -> Seq<Delivery> {
        match self.cursor_position {
            Some(cursor) => {
                let live = flushed(self.listeners, pending);
                deliveries_upto(live, cursor, self.button_states, live.len())
            },
            None => Seq::empty(),
        }
    }

    /// The state once `event` is taken note of, before any scan.
    pub open spec fn noting(self, event: WindowEvent) -> RouterView {
        match event {
            WindowEvent::ScaleFactorChanged { scale_factor } => RouterView { scale_factor, ..self },
            WindowEvent::CursorMoved { position } => RouterView {
                cursor_position: Some(position.scaled_down_spec(self.scale_factor)),
                ..self
            },
            WindowEvent::CursorLeft => RouterView { cursor_position: None, ..self },
            WindowEvent::MouseInput { state, button } => match button.slot_spec() {
                Some(slot) => RouterView {
                    button_states: self.button_states.update(slot as int, state.is_pressed_spec()),
                    ..self
                },
                None => self,
            },
            _ => self,
        }
    }
}

/// Whether the router scans its listeners on `event`.
pub open spec fn causes_scan(event: WindowEvent) -> bool {
    match event {
        WindowEvent::ScaleFactorChanged { .. } => true,
        WindowEvent::CursorMoved { .. } => true,
        WindowEvent::CursorLeft => true,
        WindowEvent::MouseInput { button, .. } => button.slot_spec() is Some,
        WindowEvent::RedrawRequested => true,
        WindowEvent::Other => false,
    }
}

impl WindowEvent {
    /// Whether a router scans its listeners on this event.
    pub fn causes_scan(&self) -> (scan: bool)
        ensures
            scan == causes_scan(*self),
    {
        match self {
            WindowEvent::MouseInput { button, .. } => button.slot().is_some(),
            WindowEvent::Other => false,
            _ => true,
        }
    }
}

/// Names a registered listener; the only way to remove it or to move its rectangle.
#[derive(Debug, PartialEq, Eq)]
pub struct ListenerHandle {
    index: usize,
}

impl ListenerHandle {
    pub closed spec fn index_spec(&self) -> usize {
        self.index
    }

    /// The slot of the listener.
    #[verifier::when_used_as_spec(index_spec)]
    pub fn index(&self) -> (index: usize)
        ensures
            index == self.index_spec(),
    {
        self.index
    }

    /// Queues new bounds for the listener. They apply from the next scan on.
    pub fn update_bounds(&self, pending: &mut EventRouterDispatch, bounds: Bounds<Scalar>)
        ensures
            final(pending)@.bounds_updates == old(pending)@.bounds_updates.insert(self.index_spec(), bounds),
            final(pending)@.deregisters == old(pending)@.deregisters,
    {
        pending.update_bounds(self.index, bounds);
    }

    /// Gives the handle up, which queues the removal of the listener.
    pub fn deregister(self, pending: &mut EventRouterDispatch)
        ensures
            final(pending)@.deregisters == old(pending)@.deregisters.insert(self.index_spec()),
            final(pending)@.bounds_updates == old(pending)@.bounds_updates,
    {
        pending.deregister(self.index);
    }
}

/// The registry of listeners, generic in the type `L` of the listener objects.
pub struct EventRouter<L> {
    cursor_position: Option<Point2<Scalar>>,
    scale_factor: Scalar,
    listeners: Vec<Option<Listener<L>>>,
    button_states: [bool; 5],
}

pub closed spec fn slot_view<L>(slot: Option<Listener<L>>) -> Option<ListenerView> {
    match slot {
        Some(l) => Some(l.state@),
        None => None,
    }
}

/// Whether `deliveries` has a delivery at place `k`.
pub open spec fn is_delivery(deliveries: Seq<Delivery>, k: int) -> bool {
    0 <= k < deliveries.len()
}

pub closed spec fn slot_object<L>(slot: Option<Listener<L>>) -> Option<L> {
    match slot {
        Some(l) => Some(l.object),
        None => None,
    }
}

impl<L> View for EventRouter<L> {
    type V = RouterView;

    closed spec fn view(&self) -> RouterView {
        RouterView {
            cursor_position: self.cursor_position,
            scale_factor: self.scale_factor,
            listeners: Seq::new(self.listeners@.len(), |i: int| slot_view(self.listeners@[i])),
            button_states: self.button_states@,
        }
    }
}

impl<L> Default for EventRouter<L> {
    fn default() -> (router: Self)
        ensures
            router@.cursor_position is None,
            router@.scale_factor.raw == crate::scalar::ONE_RAW,
            router@.listeners.len() == 0,
            router@.button_states == Seq::new(N_BUTTONS as nat, |i: int| false),
    {
        Self::new()
    }
}

impl<L> EventRouter<L> {
    /// The listener object in slot `slot`; `None` where the slot does not exist
    /// or its listener was removed.
    pub closed spec fn object_at(&self, slot: usize) -> Option<L> {
        if slot < self.listeners@.len() {
            slot_object(self.listeners@[slot as int])
        } else {
            None
        }
    }

    /// A router without listeners: cursor position unknown, scale factor one, no
    /// button pressed.
    pub fn new() -> (router: Self)
        ensures
            router@.cursor_position is None,
            router@.scale_factor.raw == crate::scalar::ONE_RAW,
            router@.listeners.len() == 0,
            router@.button_states == Seq::new(N_BUTTONS as nat, |i: int| false),
    {
        let router = EventRouter {
            cursor_position: None,
            scale_factor: Scalar::one(),
            listeners: Vec::new(),
            button_states: [false, false, false, false, false],
        };
        assert(router@.button_states =~= Seq::new(N_BUTTONS as nat, |i: int| false));
        router
    }

    /// Puts `listener` into a new slot behind all others, with `bounds` as its
    /// rectangle, not hovered and with no button recorded.
    pub fn register_listener(
        &mut self,
        bounds: Bounds<Scalar>,
        listener: L,
    ) -> (handle: ListenerHandle)
        ensures
            handle.index_spec() == old(self)@.listeners.len(),
            final(self).object_at(handle.index_spec()) == Some(listener),
            forall|slot: usize|
                slot != handle.index_spec() ==> #[trigger] final(self).object_at(slot) == old(
                    self,
                ).object_at(slot),
            final(self)@ == (RouterView {
                listeners: old(self)@.listeners.push(
                    Some(
                        ListenerView {
                            bounds,
                            is_hovered: false,
                            button_states: Seq::new(N_BUTTONS as nat, |i: int| false),
                        },
                    ),
                ),
                ..old(self)@
            }),
    {
        let index = self.listeners.len();
        let state = ListenerState {
            bounds,
            is_hovered: false,
            button_states: [false, false, false, false, false],
        };
        assert(state@.button_states =~= Seq::new(N_BUTTONS as nat, |i: int| false));
        self.listeners.push(Some(Listener { state, object: listener }));
        assert(self@.listeners =~= old(self)@.listeners.push(Some(state@)));
        ListenerHandle { index }
    }

    pub fn cursor_position(&self) -> (position: Option<Point2<Scalar>>)
        ensures
            position == self@.cursor_position,
    {
        self.cursor_position
    }

    pub fn scale_factor(&self) -> (factor: Scalar)
        ensures
            factor == self@.scale_factor,
    {
        self.scale_factor
    }

    /// Number of slots, removed listeners included.
    pub fn n_slots(&self) -> (n: usize)
        ensures
            n == self@.listeners.len(),
    {
        self.listeners.len()
    }

    /// The router's record of the listener in slot `index`; `None` where the slot
    /// does not exist or its listener was removed.
    pub fn listener_state(&self, index: usize) -> (state: Option<ListenerState>)
        ensures
            index >= self@.listeners.len() ==> state is None,
            index < self@.listeners.len() ==> (match state {
                Some(s) => self@.listeners[index as int] == Some(s@),
                None => self@.listeners[index as int] is None,
            }),
    {
        if index >= self.listeners.len() {
            return None;
        }
        match &self.listeners[index] {
            Some(listener) => Some(listener.state),
            None => None,
        }
    }

    /// Whether the router holds `button` to be pressed.
    pub fn is_pressed(&self, button: MouseButton) -> (pressed: bool)
        ensures
            pressed == (match button.slot_spec() {
                Some(slot) => self@.button_states[slot as int],
                None => false,
            }),
    {
        match button.slot() {
            Some(slot) => self.button_states[slot],
            None => false,
        }
    }

    /// Clears the slots whose removal is queued and empties that queue. Returns
    /// how many removals were queued.
    fn deregister(&mut self, pending: &mut EventRouterDispatch) -> (count: usize)
        ensures
            count == old(pending)@.deregisters.len(),
            final(pending)@.deregisters == Set::<usize>::empty(),
            final(pending)@.bounds_updates == old(pending)@.bounds_updates,
            forall|slot: usize| #[trigger]
                final(self).object_at(slot) == (if old(pending)@.deregisters.contains(slot) {
                    None
                } else {
                    old(self).object_at(slot)
                }),
            final(self)@ == (RouterView {
                listeners: Seq::new(
                    old(self)@.listeners.len(),
                    |i: int|
                        deregistered_slot(
                            old(self)@.listeners[i],
                            i as usize,
                            old(pending)@.deregisters,
                        ),
                ),
                ..old(self)@
            }),
    {
        let count = pending.deregisters.len();
        let n = self.listeners.len();
        let mut i: usize = 0;
        while i < n
            invariant
                i <= n,
                n == self.listeners@.len(),
                n == old(self).listeners@.len(),
                *pending == *old(pending),
                self.cursor_position == old(self).cursor_position,
                self.scale_factor == old(self).scale_factor,
                self.button_states == old(self).button_states,
                forall|j: int|
                    0 <= j < i ==> slot_view(#[trigger] self.listeners@[j]) == deregistered_slot(
                        slot_view(old(self).listeners@[j]),
                        j as usize,
                        old(pending)@.deregisters,
                    ),
                forall|j: int|
                    0 <= j < i ==> slot_object(#[trigger] self.listeners@[j]) == (if old(
                        pending,
                    )@.deregisters.contains(j as usize) {
                        None
                    } else {
                        slot_object(old(self).listeners@[j])
                    }),
                forall|j: int| i <= j < n ==> #[trigger] self.listeners@[j] == old(self).listeners@[j],
            decreases n - i,
        {
            if pending.deregisters.contains(&i) {
                self.listeners[i] = None;
            }
            i += 1;
        }
        pending.deregisters.clear();
        assert(self@.listeners =~= Seq::new(
            old(self)@.listeners.len(),
            |i: int|
                deregistered_slot(old(self)@.listeners[i], i as usize, old(pending)@.deregisters),
        ));
        count
    }

    /// Gives every live listener with a queued change of bounds its new bounds and
    /// empties that queue. Returns how many changes were queued.
    fn update_bounds(&mut self, pending: &mut EventRouterDispatch) -> (count: usize)
        ensures
            count == old(pending)@.bounds_updates.len(),
            final(pending)@.bounds_updates == Map::<usize, Bounds<Scalar>>::empty(),
            final(pending)@.deregisters == old(pending)@.deregisters,
            forall|slot: usize| #[trigger] final(self).object_at(slot) == old(self).object_at(slot),
            final(self)@ == (RouterView {
                listeners: Seq::new(
                    old(self)@.listeners.len(),
                    |i: int|
                        moved_slot(
                            old(self)@.listeners[i],
                            i as usize,
                            old(pending)@.bounds_updates,
                        ),
                ),
                ..old(self)@
            }),
    {
        let count = pending.bounds_updates.len();
        let n = self.listeners.len();
        let mut i: usize = 0;
        while i < n
            invariant
                i <= n,
                n == self.listeners@.len(),
                n == old(self).listeners@.len(),
                *pending == *old(pending),
                self.cursor_position == old(self).cursor_position,
                self.scale_factor == old(self).scale_factor,
                self.button_states == old(self).button_states,
                forall|j: int|
                    0 <= j < i ==> slot_view(#[trigger] self.listeners@[j]) == moved_slot(
                        slot_view(old(self).listeners@[j]),
                        j as usize,
                        old(pending)@.bounds_updates,
                    ),
                forall|j: int|
                    0 <= j < n ==> slot_object(#[trigger] self.listeners@[j]) == slot_object(
                        old(self).listeners@[j],
                    ),
                forall|j: int| i <= j < n ==> #[trigger] self.listeners@[j] == old(self).listeners@[j],
            decreases n - i,
        {
            match pending.bounds_updates.get(&i) {
                Some(bounds) => {
                    let bounds = *bounds;
                    match &mut self.listeners[i] {
                        Some(listener) => {
                            listener.state.bounds = bounds;
                        },
                        None => {},
                    }
                },
                None => {},
            }
            i += 1;
        }
        pending.bounds_updates.clear();
        assert(self@.listeners =~= Seq::new(
            old(self)@.listeners.len(),
            |i: int| moved_slot(old(self)@.listeners[i], i as usize, old(pending)@.bounds_updates),
        ));
        count
    }

    /// Applies the queued requests and scans the listeners. Returns the events
    /// that the listeners are owed, in the order in which they are to be told.
    pub fn scan_events(&mut self, pending: &mut EventRouterDispatch) -> (deliveries: Vec<Delivery>)
        ensures
            final(self)@ == old(self)@.after_scan(old(pending)@),
            deliveries@ == old(self)@.scan_deliveries(old(pending)@),
            final(pending)@.is_empty(),
            forall|slot: usize| #[trigger]
                final(self).object_at(slot) == (if old(pending)@.deregisters.contains(slot) {
                    None
                } else {
                    old(self).object_at(slot)
                }),
    {
        self.deregister(pending);
        self.update_bounds(pending);
        let ghost live = self@.listeners;
        let ghost slots = self.listeners@;
        let ghost entry = *self;
        assert(live =~= flushed(old(self)@.listeners, old(pending)@));
        let mut deliveries: Vec<Delivery> = Vec::new();
        let cursor_position = match self.cursor_position {
            Some(position) => position,
            None => {
                return deliveries;
            },
        };
        let n = self.listeners.len();
        let mut i: usize = 0;
        while i < n
            invariant
                i <= n,
                n == self.listeners@.len(),
                n == live.len(),
                self.cursor_position == Some(cursor_position),
                self.cursor_position == old(self).cursor_position,
                self.scale_factor == old(self).scale_factor,
                self.button_states == old(self).button_states,
                forall|j: int|
                    0 <= j < i ==> slot_view(#[trigger] self.listeners@[j]) == scanned_slot(
                        live[j],
                        cursor_position,
                        self.button_states@,
                    ),
                forall|j: int| i <= j < n ==> slot_view(#[trigger] self.listeners@[j]) == live[j],
                n == slots.len(),
                slots == entry.listeners@,
                forall|slot: usize| #[trigger]
                    entry.object_at(slot) == (if old(pending)@.deregisters.contains(slot) {
                        None
                    } else {
                        old(self).object_at(slot)
                    }),
                forall|j: int|
                    0 <= j < n ==> slot_object(#[trigger] self.listeners@[j]) == slot_object(
                        slots[j],
                    ),
                deliveries@ == deliveries_upto(live, cursor_position, self.button_states@, i as nat),
            decreases n - i,
        {
            match &mut self.listeners[i] {
                Some(listener) => {
                    scan_listener(
                        &mut listener.state,
                        i,
                        cursor_position,
                        &self.button_states,
                        &mut deliveries,
                    );
                },
                None => {},
            }
            i += 1;
        }
        assert(self@.listeners =~= old(self)@.after_scan(old(pending)@).listeners);
        assert forall|slot: usize| #[trigger]
            self.object_at(slot) == (if old(pending)@.deregisters.contains(slot) {
                None
            } else {
                old(self).object_at(slot)
            }) by {
            assert(self.object_at(slot) == entry.object_at(slot));
        }
        deliveries
    }

    /// Takes note of `event`. Returns whether the event calls for a scan.
    pub fn note_event(&mut self, event: &WindowEvent) -> (scan: bool)
        ensures
            final(self)@ == old(self)@.noting(*event),
            scan == causes_scan(*event),
            forall|slot: usize| #[trigger] final(self).object_at(slot) == old(self).object_at(slot),
    {
        match event {
            WindowEvent::ScaleFactorChanged { scale_factor } => {
                self.scale_factor = *scale_factor;
                true
            },
            WindowEvent::CursorMoved { position } => {
                self.cursor_position = Some(position.scaled_down(self.scale_factor));
                true
            },
            WindowEvent::CursorLeft => {
                self.cursor_position = None;
                true
            },
            WindowEvent::MouseInput { state, button } => {
                match button.slot() {
                    Some(slot) => {
                        self.button_states[slot] = state.is_pressed();
                        true
                    },
                    None => false,
                }
            },
            WindowEvent::RedrawRequested => true,
            WindowEvent::Other => false,
        }
    }

    /// Tells each listener of the events it is owed, in the order of `deliveries`.
    /// A delivery for a slot without a listener is passed over. The state of the
    /// application goes from one listener to the next.
    fn deliver<UiState>(&self, deliveries: &Vec<Delivery>, ui_state: &mut UiState) where
        L: MouseEventListener<UiState>,

        ensures
            exists|states: Seq<UiState>|
                {
                    &&& states.len() == deliveries@.len() + 1
                    &&& states[0] == *old(ui_state)
                    &&& states[deliveries@.len() as int] == *final(ui_state)
                    &&& forall|k: int| #[trigger]
                        is_delivery(deliveries@, k) ==> match self.object_at(
                            deliveries@[k].listener,
                        ) {
                            Some(object) => exists|state: &mut UiState|
                                {
                                    &&& *state == states[k]
                                    &&& *final(state) == states[k + 1]
                                    &&& #[trigger] call_ensures(
                                        L::mouse_event,
                                        (&object, deliveries@[k].event, state),
                                        (),
                                    )
                                },
                            None => states[k + 1] == states[k],
                        }
                },
    {
        let n = deliveries.len();
        let ghost mut states: Seq<UiState> = seq![*ui_state];
        let mut i: usize = 0;
        while i < n
            invariant
                i <= n,
                n == deliveries@.len(),
                states.len() == i + 1,
                states[0] == *old(ui_state),
                states[i as int] == *ui_state,
                forall|k: int| #[trigger]
                    is_delivery(deliveries@, k) && k < i ==> match self.object_at(
                        deliveries@[k].listener,
                    ) {
                        Some(object) => exists|state: &mut UiState|
                            {
                                &&& *state == states[k]
                                &&& *final(state) == states[k + 1]
                                &&& #[trigger] call_ensures(
                                    L::mouse_event,
                                    (&object, deliveries@[k].event, state),
                                    (),
                                )
                            },
                        None => states[k + 1] == states[k],
                    },
            decreases n - i,
        {
            let ghost told = states;
            let delivery = deliveries[i];
            if delivery.listener < self.listeners.len() {
                match &self.listeners[delivery.listener] {
                    Some(listener) => {
                        listener.object.mouse_event(delivery.event, ui_state);
                    },
                    None => {},
                }
            }
            proof {
                states = states.push(*ui_state);
            }
            assert forall|k: int| #[trigger] is_delivery(deliveries@, k) && k < i + 1 implies match self.object_at(
                deliveries@[k].listener,
            ) {
                Some(object) => exists|state: &mut UiState|
                    {
                        &&& *state == states[k]
                        &&& *final(state) == states[k + 1]
                        &&& #[trigger] call_ensures(
                            L::mouse_event,
                            (&object, deliveries@[k].event, state),
                            (),
                        )
                    },
                None => states[k + 1] == states[k],
            } by {
                if k < i {
                    assert(states[k] == told[k]);
                    assert(states[k + 1] == told[k + 1]);
                } else {
                    assert(states[k] == told[i as int]);
                    assert(states[k + 1] == *ui_state);
                    assert(deliveries@[k] == delivery);
                }
            }
            i += 1;
        }
    }

    /// Handles one window event: takes note of it, scans the listeners where the
    /// event calls for it, and tells them of what they are owed. Returns whether
    /// the window should be redrawn, which is whether any listener was told of
    /// anything.
    #[must_use]
    pub fn window_event<UiState>(
        &mut self,
        pending: &mut EventRouterDispatch,
        event: &WindowEvent,
        ui_state: &mut UiState,
    ) -> (redraw: bool) where L: MouseEventListener<UiState>
        ensures
            forall|slot: usize| #[trigger]
                final(self).object_at(slot) == (if causes_scan(*event) && old(
                    pending,
                )@.deregisters.contains(slot) {
                    None
                } else {
                    old(self).object_at(slot)
                }),
            causes_scan(*event) ==> {
                let deliveries = old(self)@.noting(*event).scan_deliveries(old(pending)@);
                &&& final(self)@ == old(self)@.noting(*event).after_scan(old(pending)@)
                &&& final(pending)@.is_empty()
                &&& redraw == (deliveries.len() > 0)
                &&& exists|states: Seq<UiState>|
                    {
                        &&& states.len() == deliveries.len() + 1
                        &&& states[0] == *old(ui_state)
                        &&& states[deliveries.len() as int] == *final(ui_state)
                        &&& forall|k: int| #[trigger]
                            is_delivery(deliveries, k) ==> match final(self).object_at(
                                deliveries[k].listener,
                            ) {
                                Some(object) => exists|state: &mut UiState|
                                    {
                                        &&& *state == states[k]
                                        &&& *final(state) == states[k + 1]
                                        &&& #[trigger] call_ensures(
                                            L::mouse_event,
                                            (&object, deliveries[k].event, state),
                                            (),
                                        )
                                    },
                                None => states[k + 1] == states[k],
                            }
                    }
            },
            !causes_scan(*event) ==> {
                &&& final(self)@ == old(self)@
                &&& final(pending)@ == old(pending)@
                &&& *final(ui_state) == *old(ui_state)
                &&& !redraw
            },
    {
        if !self.note_event(event) {
            return false;
        }
        let deliveries = self.scan_events(pending);
        self.deliver(&deliveries, ui_state);
        deliveries.len() > 0
    }
}

proof fn lemma_button_deliveries_name_their_listener(
    listener: usize,
    l: ListenerView,
    cursor: Point2<Scalar>,
    pressed: Seq<bool>,
    n: nat,
)
    ensures
        forall|k: int|
            0 <= k < button_deliveries(listener, l, cursor, pressed, n).len() ==> (
            #[trigger] button_deliveries(listener, l, cursor, pressed, n)[k]).listener == listener,
    decreases n,
{
    if n > 0 {
        lemma_button_deliveries_name_their_listener(listener, l, cursor, pressed, (n - 1) as nat);
    }
}

proof fn lemma_deliveries_upto_go_to_live_listeners(
    listeners: Seq<Option<ListenerView>>,
    cursor: Point2<Scalar>,
    pressed: Seq<bool>,
    n: nat,
)
    requires
        n <= listeners.len() <= usize::MAX,
    ensures
        forall|k: int|
            0 <= k < deliveries_upto(listeners, cursor, pressed, n).len() ==> {
                let d = #[trigger] deliveries_upto(listeners, cursor, pressed, n)[k];
                d.listener < n && listeners[d.listener as int] is Some
            },
    decreases n,
{
    if n > 0 {
        let i = (n - 1) as nat;
        lemma_deliveries_upto_go_to_live_listeners(listeners, cursor, pressed, i);
        match listeners[i as int] {
            Some(l) => {
                lemma_button_deliveries_name_their_listener(
                    i as usize,
                    l,
                    cursor,
                    pressed,
                    N_BUTTONS as nat,
                );
            },
            None => {},
        }
    }
}

/// Every event of a scan goes to a listener that is still in its slot once the
/// queued requests are applied: never to a slot that was empty before, and never
/// to one whose removal was queued.
pub proof fn lemma_deliveries_go_to_live_listeners(state: RouterView, pending: PendingView, k: int)
    requires
        state.listeners.len() <= usize::MAX,
        0 <= k < state.scan_deliveries(pending).len(),
    ensures
        ({
            let d = state.scan_deliveries(pending)[k];
            &&& d.listener < state.listeners.len()
            &&& state.listeners[d.listener as int] is Some
            &&& !pending.deregisters.contains(d.listener)
            &&& state.after_scan(pending).listeners[d.listener as int] is Some
        }),
{
    let live = flushed(state.listeners, pending);
    lemma_deliveries_upto_go_to_live_listeners(
        live,
        state.cursor_position->Some_0,
        state.button_states,
        live.len(),
    );
}

/// A slot that is empty, or whose removal is queued, is empty after any window
/// event, and no event of that scan goes to it: slots are never filled again.
pub proof fn lemma_removed_listener_stays_removed(
    state: RouterView,
    pending: PendingView,
    event: WindowEvent,
    index: usize,
)
    requires
        index < state.listeners.len() <= usize::MAX,
        state.listeners[index as int] is None || pending.deregisters.contains(index),
    ensures
        state.noting(event).after_scan(pending).listeners[index as int] is None,
        forall|k: int|
            0 <= k < state.noting(event).scan_deliveries(pending).len() ==> (
            #[trigger] state.noting(event).scan_deliveries(pending)[k]).listener != index,
{
    let noted = state.noting(event);
    assert(noted.listeners == state.listeners);
    assert forall|k: int| 0 <= k < noted.scan_deliveries(pending).len() implies (
    #[trigger] noted.scan_deliveries(pending)[k]).listener != index by {
        lemma_deliveries_go_to_live_listeners(noted, pending, k);
    }
}

/// A scan changes neither the number of slots nor the rectangle of a listener
/// that stays, beyond the queued changes of bounds.
pub proof fn lemma_scan_keeps_slots(state: RouterView, pending: PendingView, index: usize)
    requires
        index < state.listeners.len() <= usize::MAX,
    ensures
        state.after_scan(pending).listeners.len() == state.listeners.len(),
        state.after_scan(pending).listeners[index as int] matches Some(after) ==> {
            &&& state.listeners[index as int] matches Some(before)
            &&& after.bounds == (if pending.bounds_updates.contains_key(index) {
                pending.bounds_updates[index]
            } else {
                before.bounds
            })
        },
{
}

} // verus!
