//! Translation of host window input into the widget tree's event model.
//!
//! The translator keeps the pointer position in logical units, the pressed
//! buttons, the modifier keys and the current scale factor between events.

use vstd::prelude::*;
use crate::geometry::{Ratio, Scale, logical_of, physical_of, to_logical, to_physical};

verus! {

/// A mouse button as the host reports it.
#[derive(Clone, Copy, Debug, PartialEq, Eq, Structural)]
pub enum MouseButton {
    Left,
    Middle,
    Right,
    Back,
    Forward,
    Other(u8),
}

/// A pointer button of the widget tree's event model.
#[derive(Clone, Copy, Debug, PartialEq, Eq, Structural)]
pub enum PointerButton {
    Primary,
    Secondary,
    Auxiliary,
    X1,
    X2,
}

/// The fixed, total button mapping; an unknown host button counts as primary.
pub open spec fn button_of(button: MouseButton) -> PointerButton {
    match button {
        MouseButton::Left => PointerButton::Primary,
        MouseButton::Right => PointerButton::Secondary,
        MouseButton::Middle => PointerButton::Auxiliary,
        MouseButton::Back => PointerButton::X1,
        MouseButton::Forward => PointerButton::X2,
        MouseButton::Other(_) => PointerButton::Primary,
    }
}

/// Maps a host mouse button to a pointer button.
pub fn translate_mouse_button(button: MouseButton) -> (r: PointerButton)
    ensures
        r == button_of(button),
{
    match button {
        MouseButton::Left => PointerButton::Primary,
        MouseButton::Right => PointerButton::Secondary,
        MouseButton::Middle => PointerButton::Auxiliary,
        MouseButton::Back => PointerButton::X1,
        MouseButton::Forward => PointerButton::X2,
        MouseButton::Other(_) => PointerButton::Primary,
    }
}

/// The set of pressed pointer buttons.
#[derive(Clone, Copy, Debug, PartialEq, Eq, Structural)]
pub struct PointerButtons {
    pub primary: bool,
    pub secondary: bool,
    pub auxiliary: bool,
    pub x1: bool,
    pub x2: bool,
}

impl PointerButtons {
    /// Whether `b` is in the set.
    pub open spec fn has(self, b: PointerButton) -> bool {
        match b {
            PointerButton::Primary => self.primary,
            PointerButton::Secondary => self.secondary,
            PointerButton::Auxiliary => self.auxiliary,
            PointerButton::X1 => self.x1,
            PointerButton::X2 => self.x2,
        }
    }

    /// The set with `b` in it when `on`, without it otherwise.
    pub open spec fn with(self, b: PointerButton, on: bool) -> PointerButtons {
        match b {
            PointerButton::Primary => PointerButtons { primary: on, ..self },
            PointerButton::Secondary => PointerButtons { secondary: on, ..self },
            PointerButton::Auxiliary => PointerButtons { auxiliary: on, ..self },
            PointerButton::X1 => PointerButtons { x1: on, ..self },
            PointerButton::X2 => PointerButtons { x2: on, ..self },
        }
    }

    pub open spec fn none() -> PointerButtons {
        PointerButtons { primary: false, secondary: false, auxiliary: false, x1: false, x2: false }
    }

    /// The empty set.
    pub fn empty() -> (r: PointerButtons)
        ensures
            r == PointerButtons::none(),
            forall|b: PointerButton| !r.has(b),
    {
        PointerButtons { primary: false, secondary: false, auxiliary: false, x1: false, x2: false }
    }

    /// Whether `b` is pressed.
    pub fn contains(&self, b: PointerButton) -> (r: bool)
        ensures
            r == self.has(b),
    {
        match b {
            PointerButton::Primary => self.primary,
            PointerButton::Secondary => self.secondary,
            PointerButton::Auxiliary => self.auxiliary,
            PointerButton::X1 => self.x1,
            PointerButton::X2 => self.x2,
        }
    }

    /// Adds `b` to the set.
    pub fn insert(&mut self, b: PointerButton)
        ensures
            *final(self) == old(self).with(b, true),
    {
        match b {
            PointerButton::Primary => self.primary = true,
            PointerButton::Secondary => self.secondary = true,
            PointerButton::Auxiliary => self.auxiliary = true,
            PointerButton::X1 => self.x1 = true,
            PointerButton::X2 => self.x2 = true,
        }
    }

    /// Removes `b` from the set.
    pub fn remove(&mut self, b: PointerButton)
        ensures
            *final(self) == old(self).with(b, false),
    {
        match b {
            PointerButton::Primary => self.primary = false,
            PointerButton::Secondary => self.secondary = false,
            PointerButton::Auxiliary => self.auxiliary = false,
            PointerButton::X1 => self.x1 = false,
            PointerButton::X2 => self.x2 = false,
        }
    }
}

/// The modifier keys that the widget tree distinguishes.
#[derive(Clone, Copy, Debug, PartialEq, Eq, Structural)]
pub struct Modifiers {
    pub shift: bool,
    pub control: bool,
    pub alt: bool,
    pub meta: bool,
}

impl Modifiers {
    pub open spec fn none() -> Modifiers {
        Modifiers { shift: false, control: false, alt: false, meta: false }
    }

    /// No modifier key held.
    pub fn empty() -> (r: Modifiers)
        ensures
            r == Modifiers::none(),
    {
        Modifiers { shift: false, control: false, alt: false, meta: false }
    }
}

/// A wheel movement, in lines or in pixels.
#[derive(Clone, Copy, Debug, PartialEq, Eq, Structural)]
pub enum ScrollDelta {
    Lines { x: Ratio, y: Ratio },
    Pixels { x: Ratio, y: Ratio },
}

/// A scroll amount of the widget tree's event model.
#[derive(Clone, Copy, Debug, PartialEq, Eq, Structural)]
pub enum PointerScrollDelta {
    LineDelta { x: Ratio, y: Ratio },
    PixelDelta { x: Ratio, y: Ratio },
}

/// Lines stay lines and pixels stay pixels, with the same amounts.
pub open spec fn scroll_of(delta: ScrollDelta) -> PointerScrollDelta {
    match delta {
        ScrollDelta::Lines { x, y } => PointerScrollDelta::LineDelta { x, y },
        ScrollDelta::Pixels { x, y } => PointerScrollDelta::PixelDelta { x, y },
    }
}

/// Maps a host wheel movement to a scroll amount of the same kind.
pub fn translate_scroll_delta(delta: ScrollDelta) -> (r: PointerScrollDelta)
    ensures
        r == scroll_of(delta),
{
    match delta {
        ScrollDelta::Lines { x, y } => PointerScrollDelta::LineDelta { x, y },
        ScrollDelta::Pixels { x, y } => PointerScrollDelta::PixelDelta { x, y },
    }
}

/// A mouse notification of the host, with its position in physical pixels.
#[derive(Clone, Copy, Debug, PartialEq, Eq, Structural)]
pub enum MouseEvent {
    CursorMoved { x: i32, y: i32, modifiers: Modifiers },
    ButtonPressed { button: MouseButton, modifiers: Modifiers },
    ButtonReleased { button: MouseButton, modifiers: Modifiers },
    WheelScrolled { delta: ScrollDelta, modifiers: Modifiers },
    CursorEntered,
    CursorLeft,
    /// A drag-and-drop notification, which has no counterpart in the widget tree.
    Drag,
}

/// A window notification of the host.
#[derive(Clone, Copy, Debug, PartialEq, Eq, Structural)]
pub enum WindowEvent {
    Resized { width: u32, height: u32, scale: Scale },
    Focused,
    Unfocused,
    WillClose,
}

/// A host notification; `K` is the host's keyboard event, passed through.
pub enum HostEvent<K> {
    Mouse(MouseEvent),
    Keyboard { event: K, modifiers: Modifiers },
    Window(WindowEvent),
}

/// The kind of device behind a pointer.
#[derive(Clone, Copy, Debug, PartialEq, Eq, Structural)]
pub enum PointerType {
    Mouse,
    Pen,
    Touch,
}

/// Which pointer an event is about.
#[derive(Clone, Copy, Debug, PartialEq, Eq, Structural)]
pub struct PointerInfo {
    pub is_primary: bool,
    pub persistent_device_id: Option<u64>,
    pub pointer_type: PointerType,
}

/// The one pointer of a mouse-driven window.
pub open spec fn mouse_pointer() -> PointerInfo {
    PointerInfo { is_primary: true, persistent_device_id: None, pointer_type: PointerType::Mouse }
}

/// A pointer's state as an event reports it; the position is physical.
/// A single-point contact, pressed once, without pressure.
#[derive(Clone, Copy, Debug, PartialEq, Eq, Structural)]
pub struct PointerState {
    pub time: u64,
    pub x: Ratio,
    pub y: Ratio,
    pub buttons: PointerButtons,
    pub modifiers: Modifiers,
    pub scale: Scale,
}

/// A pointer event of the widget tree's event model.
#[derive(Clone, Copy, Debug, PartialEq, Eq, Structural)]
pub enum PointerEvent {
    Move { pointer: PointerInfo, state: PointerState },
    Down { button: PointerButton, pointer: PointerInfo, state: PointerState },
    Up { button: PointerButton, pointer: PointerInfo, state: PointerState },
    Scroll { pointer: PointerInfo, state: PointerState, delta: PointerScrollDelta },
    Enter(PointerInfo),
    Leave(PointerInfo),
}

/// An event for the widget tree; `K` is the passed-through keyboard event.
pub enum MasonryEvent<K> {
    Pointer(PointerEvent),
    Keyboard(K),
    Resize { width: u32, height: u32, scale: Scale },
    Focus(bool),
    Close,
}

/// What the translator keeps between events.
pub struct TranslatorModel {
    /// Logical pointer position.
    pub x: Ratio,
    pub y: Ratio,
    pub buttons: PointerButtons,
    pub modifiers: Modifiers,
    pub scale: Scale,
}

impl TranslatorModel {
    pub open spec fn wf(self) -> bool {
        self.x.is_logical_sized() && self.y.is_logical_sized() && self.scale.wf()
    }

    /// The pointer state reported at `time`: the logical position times the scale.
    pub open spec fn state_at(self, time: u64) -> PointerState {
        PointerState {
            time,
            x: physical_of(self.x, self.scale),
            y: physical_of(self.y, self.scale),
            buttons: self.buttons,
            modifiers: self.modifiers,
            scale: self.scale,
        }
    }
}

/// The translator's state after `e`.
pub open spec fn translate_step<K>(m: TranslatorModel, e: HostEvent<K>) -> TranslatorModel {
    match e {
        HostEvent::Mouse(MouseEvent::CursorMoved { x, y, modifiers }) => TranslatorModel {
            x: logical_of(x, m.scale),
            y: logical_of(y, m.scale),
            modifiers,
            ..m
        },
        HostEvent::Mouse(MouseEvent::ButtonPressed { button, modifiers }) => TranslatorModel {
            buttons: m.buttons.with(button_of(button), true),
            modifiers,
            ..m
        },
        HostEvent::Mouse(MouseEvent::ButtonReleased { button, modifiers }) => TranslatorModel {
            buttons: m.buttons.with(button_of(button), false),
            modifiers,
            ..m
        },
        HostEvent::Mouse(MouseEvent::WheelScrolled { delta, modifiers }) => TranslatorModel {
            modifiers,
            ..m
        },
        HostEvent::Keyboard { event, modifiers } => TranslatorModel { modifiers, ..m },
        HostEvent::Window(WindowEvent::Resized { width, height, scale }) => TranslatorModel {
            scale,
            ..m
        },
        _ => m,
    }
}

/// The event that `e` becomes, at `time`, from the state `m` before it.
pub open spec fn translate_output<K>(m: TranslatorModel, e: HostEvent<K>, time: u64) -> Option<MasonryEvent<K>> {
    let n = translate_step(m, e);
    match e {
        HostEvent::Mouse(MouseEvent::CursorMoved { .. }) => Some(
            MasonryEvent::Pointer(PointerEvent::Move { pointer: mouse_pointer(), state: n.state_at(time) }),
        ),
        HostEvent::Mouse(MouseEvent::ButtonPressed { button, .. }) => Some(
            MasonryEvent::Pointer(
                PointerEvent::Down { button: button_of(button), pointer: mouse_pointer(), state: n.state_at(time) },
            ),
        ),
        HostEvent::Mouse(MouseEvent::ButtonReleased { button, .. }) => Some(
            MasonryEvent::Pointer(
                PointerEvent::Up { button: button_of(button), pointer: mouse_pointer(), state: n.state_at(time) },
            ),
        ),
        HostEvent::Mouse(MouseEvent::WheelScrolled { delta, .. }) => Some(
            MasonryEvent::Pointer(
                PointerEvent::Scroll { pointer: mouse_pointer(), state: n.state_at(time), delta: scroll_of(delta) },
            ),
        ),
        HostEvent::Mouse(MouseEvent::CursorEntered) => Some(MasonryEvent::Pointer(PointerEvent::Enter(mouse_pointer()))),
        HostEvent::Mouse(MouseEvent::CursorLeft) => Some(MasonryEvent::Pointer(PointerEvent::Leave(mouse_pointer()))),
        HostEvent::Mouse(MouseEvent::Drag) => None,
        HostEvent::Keyboard { event, .. } => Some(MasonryEvent::Keyboard(event)),
        HostEvent::Window(WindowEvent::Resized { width, height, scale }) => Some(
            MasonryEvent::Resize { width, height, scale },
        ),
        HostEvent::Window(WindowEvent::Focused) => Some(MasonryEvent::Focus(true)),
        HostEvent::Window(WindowEvent::Unfocused) => Some(MasonryEvent::Focus(false)),
        HostEvent::Window(WindowEvent::WillClose) => Some(MasonryEvent::Close),
    }
}

/// A host event whose scale, if it carries one, is valid.
pub open spec fn event_wf<K>(e: HostEvent<K>) -> bool {
    match e {
        HostEvent::Window(WindowEvent::Resized { scale, .. }) => scale.wf(),
        _ => true,
    }
}

/// Keeps pointer state between host events and translates each of them.
pub struct EventTranslator {
    pointer_x: Ratio,
    pointer_y: Ratio,
    buttons: PointerButtons,
    modifiers: Modifiers,
    scale_factor: Scale,
}

impl View for EventTranslator {
    type V = TranslatorModel;

    closed spec fn view(&self) -> TranslatorModel {
        TranslatorModel {
            x: self.pointer_x,
            y: self.pointer_y,
            buttons: self.buttons,
            modifiers: self.modifiers,
            scale: self.scale_factor,
        }
    }
}

impl EventTranslator {
    /// A translator with the pointer at the origin, nothing pressed, and
    /// the given scale.
    pub fn new(scale_factor: Scale) -> (r: EventTranslator)
        requires
            scale_factor.wf(),
        ensures
            r@.wf(),
            r@.x == (Ratio { num: 0, den: 1 }),
            r@.y == (Ratio { num: 0, den: 1 }),
            r@.buttons == PointerButtons::none(),
            r@.modifiers == Modifiers::none(),
            r@.scale == scale_factor,
    {
        EventTranslator {
            pointer_x: Ratio::whole(0),
            pointer_y: Ratio::whole(0),
            buttons: PointerButtons::empty(),
            modifiers: Modifiers::empty(),
            scale_factor,
        }
    }

    /// The current scale factor.
    pub fn scale_factor(&self) -> (r: Scale)
        ensures
            r == self@.scale,
    {
        self.scale_factor
    }

    /// Replaces the scale factor; nothing else changes.
    pub fn set_scale_factor(&mut self, scale: Scale)
        requires
            old(self)@.wf(),
            scale.wf(),
        ensures
            final(self)@ == (TranslatorModel { scale, ..old(self)@ }),
            final(self)@.wf(),
    {
        self.scale_factor = scale;
    }

    fn make_pointer_info(&self) -> (r: PointerInfo)
        ensures
            r == mouse_pointer(),
    {
        PointerInfo { is_primary: true, persistent_device_id: None, pointer_type: PointerType::Mouse }
    }

    fn make_pointer_state(&self, time: u64) -> (r: PointerState)
        requires
            self@.wf(),
        ensures
            r == self@.state_at(time),
    {
        PointerState {
            time,
            x: to_physical(self.pointer_x, self.scale_factor),
            y: to_physical(self.pointer_y, self.scale_factor),
            buttons: self.buttons,
            modifiers: self.modifiers,
            scale: self.scale_factor,
        }
    }

    /// Translates one host event, received `time` nanoseconds after the
    /// translator was made, and updates the kept pointer state.
    pub fn translate<K>(&mut self, event: HostEvent<K>, time: u64) -> (r: Option<MasonryEvent<K>>)
        requires
            old(self)@.wf(),
            event_wf(event),
        ensures
            final(self)@ == translate_step(old(self)@, event),
            r == translate_output(old(self)@, event, time),
            final(self)@.wf(),
    {
        match event {
            HostEvent::Mouse(mouse) => self.translate_mouse(mouse, time),
            HostEvent::Keyboard { event, modifiers } => self.translate_keyboard(event, modifiers),
            HostEvent::Window(win) => self.translate_window(win),
        }
    }

    fn translate_mouse<K>(&mut self, event: MouseEvent, time: u64) -> (r: Option<MasonryEvent<K>>)
        requires
            old(self)@.wf(),
        ensures
            final(self)@ == translate_step(old(self)@, HostEvent::<K>::Mouse(event)),
            r == translate_output(old(self)@, HostEvent::<K>::Mouse(event), time),
            final(self)@.wf(),
    {
        match event {
            MouseEvent::CursorMoved { x, y, modifiers } => {
                self.pointer_x = to_logical(x, self.scale_factor);
                self.pointer_y = to_logical(y, self.scale_factor);
                self.modifiers = modifiers;
                Some(
                    MasonryEvent::Pointer(
                        PointerEvent::Move { pointer: self.make_pointer_info(), state: self.make_pointer_state(time) },
                    ),
                )
            },
            MouseEvent::ButtonPressed { button, modifiers } => {
                self.modifiers = modifiers;
                let btn = translate_mouse_button(button);
                self.buttons.insert(btn);
                Some(
                    MasonryEvent::Pointer(
                        PointerEvent::Down {
                            button: btn,
                            pointer: self.make_pointer_info(),
                            state: self.make_pointer_state(time),
                        },
                    ),
                )
            },
            MouseEvent::ButtonReleased { button, modifiers } => {
                self.modifiers = modifiers;
                let btn = translate_mouse_button(button);
                self.buttons.remove(btn);
                Some(
                    MasonryEvent::Pointer(
                        PointerEvent::Up {
                            button: btn,
                            pointer: self.make_pointer_info(),
                            state: self.make_pointer_state(time),
                        },
                    ),
                )
            },
            MouseEvent::WheelScrolled { delta, modifiers } => {
                self.modifiers = modifiers;
                Some(
                    MasonryEvent::Pointer(
                        PointerEvent::Scroll {
                            pointer: self.make_pointer_info(),
                            state: self.make_pointer_state(time),
                            delta: translate_scroll_delta(delta),
                        },
                    ),
                )
            },
            MouseEvent::CursorEntered => Some(MasonryEvent::Pointer(PointerEvent::Enter(self.make_pointer_info()))),
            MouseEvent::CursorLeft => Some(MasonryEvent::Pointer(PointerEvent::Leave(self.make_pointer_info()))),
            MouseEvent::Drag => None,
        }
    }

    /// Keyboard events are passed through unchanged; only the modifiers are kept.
    fn translate_keyboard<K>(&mut self, event: K, modifiers: Modifiers) -> (r: Option<MasonryEvent<K>>)
        requires
            old(self)@.wf(),
        ensures
            final(self)@ == (TranslatorModel { modifiers, ..old(self)@ }),
            r == Some(MasonryEvent::Keyboard(event)),
            final(self)@.wf(),
    {
        self.modifiers = modifiers;
        Some(MasonryEvent::Keyboard(event))
    }

    fn translate_window<K>(&mut self, event: WindowEvent) -> (r: Option<MasonryEvent<K>>)
        requires
            old(self)@.wf(),
            event_wf(HostEvent::<K>::Window(event)),
        ensures
            final(self)@ == translate_step(old(self)@, HostEvent::<K>::Window(event)),
            r == translate_output(old(self)@, HostEvent::<K>::Window(event), 0),
            final(self)@.wf(),
    {
        match event {
            WindowEvent::Resized { width, height, scale } => {
                self.scale_factor = scale;
                Some(MasonryEvent::Resize { width, height, scale })
            },
            WindowEvent::Focused => Some(MasonryEvent::Focus(true)),
            WindowEvent::Unfocused => Some(MasonryEvent::Focus(false)),
            WindowEvent::WillClose => Some(MasonryEvent::Close),
        }
    }
}

/// The translator's state after each event of `es` in turn.
pub open spec fn translate_run<K>(m: TranslatorModel, es: Seq<HostEvent<K>>) -> TranslatorModel
    decreases es.len(),
{
    if es.len() == 0 {
        m
    } else {
        translate_run(translate_step(m, es[0]), es.drop_first())
    }
}

/// The event is a pointer move.
pub open spec fn is_move<K>(e: HostEvent<K>) -> bool {
    e is Mouse && e->Mouse_0 is CursorMoved
}

/// The event is a pointer move or a wheel movement.
pub open spec fn is_move_or_scroll<K>(e: HostEvent<K>) -> bool {
    e is Mouse && (e->Mouse_0 is CursorMoved || e->Mouse_0 is WheelScrolled)
}

/// The event is a window resize.
pub open spec fn is_resize<K>(e: HostEvent<K>) -> bool {
    e is Window && e->Window_0 is Resized
}

/// The event reports a full pointer state: a move, a press, a release or a scroll.
pub open spec fn reports_state<K>(e: HostEvent<K>) -> bool {
    e is Mouse && (e->Mouse_0 is CursorMoved || e->Mouse_0 is ButtonPressed
        || e->Mouse_0 is ButtonReleased || e->Mouse_0 is WheelScrolled)
}

/// The pointer state that a translated event carries, if any.
pub open spec fn reported_state<K>(o: Option<MasonryEvent<K>>) -> Option<PointerState> {
    match o {
        Some(MasonryEvent::Pointer(PointerEvent::Move { state, .. })) => Some(state),
        Some(MasonryEvent::Pointer(PointerEvent::Down { state, .. })) => Some(state),
        Some(MasonryEvent::Pointer(PointerEvent::Up { state, .. })) => Some(state),
        Some(MasonryEvent::Pointer(PointerEvent::Scroll { state, .. })) => Some(state),
        _ => None,
    }
}

proof fn lemma_moves_keep_scale_and_buttons<K>(m: TranslatorModel, es: Seq<HostEvent<K>>)
    requires
        forall|i: int| 0 <= i < es.len() ==> is_move_or_scroll(#[trigger] es[i]),
    ensures
        translate_run(m, es).scale == m.scale,
        translate_run(m, es).buttons == m.buttons,
    decreases es.len(),
{
    if es.len() > 0 {
        assert(is_move_or_scroll(es[0]));
        let rest = es.drop_first();
        assert forall|i: int| 0 <= i < rest.len() implies is_move_or_scroll(#[trigger] rest[i]) by {
            assert(rest[i] == es[i + 1]);
        }
        lemma_moves_keep_scale_and_buttons(translate_step(m, es[0]), rest);
    }
}

proof fn lemma_moves_position<K>(m: TranslatorModel, es: Seq<HostEvent<K>>)
    requires
        es.len() > 0,
        forall|i: int| 0 <= i < es.len() ==> is_move(#[trigger] es[i]),
    ensures
        translate_run(m, es).x == logical_of(es.last()->Mouse_0->CursorMoved_x, m.scale),
        translate_run(m, es).y == logical_of(es.last()->Mouse_0->CursorMoved_y, m.scale),
    decreases es.len(),
{
    let rest = es.drop_first();
    assert forall|i: int| 0 <= i < rest.len() implies is_move(#[trigger] rest[i]) by {
        assert(rest[i] == es[i + 1]);
    }
    assert(is_move(es[0]));
    let n = translate_step(m, es[0]);
    assert(translate_run(m, es) == translate_run(n, rest));
    assert(n.scale == m.scale);
    if es.len() == 1 {
        assert(rest.len() == 0);
        assert(translate_run(n, rest) == n);
        assert(es.last() == es[0]);
    } else {
        lemma_moves_position(n, rest);
        assert(rest.last() == es.last());
    }
}

/// After a non-empty run of pointer moves, the kept logical position is the
/// last delivered physical position divided by the scale in effect when it
/// was delivered.
pub proof fn lemma_position_after_moves<K>(m: TranslatorModel, es: Seq<HostEvent<K>>)
    requires
        es.len() > 0,
        forall|i: int| 0 <= i < es.len() ==> is_move(#[trigger] es[i]),
    ensures
        ({
            let last = es.last()->Mouse_0;
            let scale_then = translate_run(m, es.drop_last()).scale;
            &&& translate_run(m, es).x == logical_of(last->CursorMoved_x, scale_then)
            &&& translate_run(m, es).y == logical_of(last->CursorMoved_y, scale_then)
        }),
{
    let init = es.drop_last();
    assert forall|i: int| 0 <= i < init.len() implies is_move_or_scroll(#[trigger] init[i]) by {
        assert(init[i] == es[i]);
        assert(is_move(es[i]));
    }
    lemma_moves_keep_scale_and_buttons(m, init);
    lemma_moves_position(m, es);
}

/// Pressing a button that is not held, then any pointer moves and wheel
/// movements, then releasing the same button, leaves the pressed set as it
/// was before the press.
pub proof fn lemma_press_release_restores<K>(
    m: TranslatorModel,
    button: MouseButton,
    down_mods: Modifiers,
    between: Seq<HostEvent<K>>,
    up_mods: Modifiers,
)
    requires
        !m.buttons.has(button_of(button)),
        forall|i: int| 0 <= i < between.len() ==> is_move_or_scroll(#[trigger] between[i]),
    ensures
        ({
            let down = HostEvent::<K>::Mouse(MouseEvent::ButtonPressed { button, modifiers: down_mods });
            let up = HostEvent::<K>::Mouse(MouseEvent::ButtonReleased { button, modifiers: up_mods });
            translate_run(m, seq![down].add(between).push(up)).buttons == m.buttons
        }),
{
    let down = HostEvent::<K>::Mouse(MouseEvent::ButtonPressed { button, modifiers: down_mods });
    let up = HostEvent::<K>::Mouse(MouseEvent::ButtonReleased { button, modifiers: up_mods });
    let es = seq![down].add(between).push(up);
    let after_down = translate_step(m, down);
    lemma_moves_keep_scale_and_buttons(after_down, between);
    lemma_run_split(m, seq![down], between.push(up));
    assert(es == seq![down].add(between.push(up)));
    lemma_run_split(after_down, between, seq![up]);
    assert(between.push(up) == between.add(seq![up]));
    assert(translate_run(m, seq![down]) == translate_run(after_down, seq![down].drop_first()));
    assert(seq![down].drop_first().len() == 0);
    let before_up = translate_run(after_down, between);
    assert(translate_run(before_up, seq![up]) == translate_run(translate_step(before_up, up), seq![up].drop_first()));
    assert(seq![up].drop_first().len() == 0);
}

/// Running `a` then `b` is running their concatenation.
pub proof fn lemma_run_split<K>(m: TranslatorModel, a: Seq<HostEvent<K>>, b: Seq<HostEvent<K>>)
    ensures
        translate_run(m, a.add(b)) == translate_run(translate_run(m, a), b),
    decreases a.len(),
{
    if a.len() > 0 {
        assert(a.add(b)[0] == a[0]);
        assert(a.add(b).drop_first() == a.drop_first().add(b));
        lemma_run_split(translate_step(m, a[0]), a.drop_first(), b);
    } else {
        assert(a.add(b) == b);
    }
}

/// A resize sets the scale factor to the one it carries, whatever it was,
/// and every pointer event after it, up to the next resize, reports a
/// position and a scale computed with that new scale.
pub proof fn lemma_resize_scale_used<K>(
    m: TranslatorModel,
    width: u32,
    height: u32,
    scale: Scale,
    rest: Seq<HostEvent<K>>,
    e: HostEvent<K>,
    time: u64,
)
    requires
        forall|i: int| 0 <= i < rest.len() ==> !is_resize(#[trigger] rest[i]),
        reports_state(e),
    ensures
        ({
            let resize = HostEvent::<K>::Window(WindowEvent::Resized { width, height, scale });
            let n = translate_run(translate_step(m, resize), rest);
            let after = translate_step(n, e);
            &&& translate_step(m, resize).scale == scale
            &&& n.scale == scale
            &&& reported_state(translate_output(n, e, time)) == Some(after.state_at(time))
            &&& after.state_at(time).scale == scale
            &&& after.state_at(time).x == physical_of(after.x, scale)
            &&& after.state_at(time).y == physical_of(after.y, scale)
        }),
{
    let resize = HostEvent::<K>::Window(WindowEvent::Resized { width, height, scale });
    lemma_non_resize_keeps_scale(translate_step(m, resize), rest);
}

proof fn lemma_non_resize_keeps_scale<K>(m: TranslatorModel, es: Seq<HostEvent<K>>)
    requires
        forall|i: int| 0 <= i < es.len() ==> !is_resize(#[trigger] es[i]),
    ensures
        translate_run(m, es).scale == m.scale,
    decreases es.len(),
{
    if es.len() > 0 {
        assert(!is_resize(es[0]));
        let rest = es.drop_first();
        assert forall|i: int| 0 <= i < rest.len() implies !is_resize(#[trigger] rest[i]) by {
            assert(rest[i] == es[i + 1]);
        }
        lemma_non_resize_keeps_scale(translate_step(m, es[0]), rest);
    }
}

} // verus!
