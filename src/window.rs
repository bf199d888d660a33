//! The per-window session: the two-phase start of the GPU surface and the
//! widget tree, the per-frame decisions, and the dispatch of translated
//! input.
//!
//! The session decides; its driver performs. On each frame callback the
//! driver hands the session a `FrameEvent::Tick` and then carries out the
//! returned action, reporting its outcome as the next event, until the
//! session answers `Render` or `Skip`.

use vstd::prelude::*;
use crate::geometry::{Ratio, Scale, floor_u32, floor_u32_of, logical_size_of, size_to_logical};
use crate::input::{
    EventTranslator, HostEvent, MasonryEvent, PointerEvent, TranslatorModel, event_wf,
    translate_output, translate_step,
};

verus! {

/// What a parented window hands back to its opener.
pub struct MasonryWindowHandle {}

/// Opens windows that host a widget tree.
pub struct MasonryWindow {}

/// Where the widget tree is in its one-time construction.
#[derive(Clone, Copy, Debug, PartialEq, Eq, Structural)]
pub enum WidgetPhase {
    /// The constructor is held and has not been called.
    Pending,
    /// The constructor was handed out and has not reported back.
    Building,
    /// The widget tree exists.
    Ready,
}

/// What happened since the last action of a frame.
#[derive(Clone, Copy, Debug, PartialEq, Eq, Structural)]
pub enum FrameEvent {
    /// The host's frame callback.
    Tick,
    /// The GPU surface asked for was created.
    SurfaceCreated,
    /// Creating the GPU surface failed; the next frame tries again.
    SurfaceFailed,
    /// The widget constructor returned its tree.
    WidgetBuilt,
}

/// What the driver does next within a frame.
#[derive(Clone, Copy, Debug, PartialEq, Eq, Structural)]
pub enum FrameAction {
    /// Create the GPU surface at this size, then report the outcome.
    CreateSurface { width: u32, height: u32 },
    /// Take the widget constructor, call it, then report `WidgetBuilt`.
    BuildWidget,
    /// Advance animations, redraw the widget tree and submit the scene.
    Render,
    /// Nothing more this frame.
    Skip,
}

/// What an input event asks of the driver.
pub enum Dispatch<K> {
    /// Hand the pointer event to the widget tree.
    Pointer(PointerEvent),
    /// A keyboard event for the widget tree, which has no keyboard entry
    /// point for it yet.
    Keyboard(K),
    /// Resize the GPU surface, if there is one, to this physical size, and
    /// tell the widget tree, if there is one, of the new size and scale.
    Resize { width: u32, height: u32, scale: Scale },
    /// Nothing to do.
    Absorbed,
}

/// The state of a window session.
pub struct SessionModel {
    pub widget: WidgetPhase,
    pub surface_ready: bool,
    pub closed: bool,
    /// Logical size.
    pub width: Ratio,
    pub height: Ratio,
    pub translator: TranslatorModel,
}

impl SessionModel {
    pub open spec fn wf(self) -> bool {
        self.width.wf() && self.height.wf() && self.translator.wf()
    }
}

/// The session once the surface exists: build the widget tree if it was
/// never built, render if it is there.
pub open spec fn after_surface(s: SessionModel) -> (SessionModel, FrameAction) {
    match s.widget {
        WidgetPhase::Pending => (SessionModel { widget: WidgetPhase::Building, ..s }, FrameAction::BuildWidget),
        WidgetPhase::Building => (s, FrameAction::Skip),
        WidgetPhase::Ready => (s, FrameAction::Render),
    }
}

/// One step of a frame.
pub open spec fn frame_step(s: SessionModel, e: FrameEvent) -> (SessionModel, FrameAction) {
    match e {
        FrameEvent::Tick => if s.closed {
            (s, FrameAction::Skip)
        } else if !s.surface_ready {
            (s, FrameAction::CreateSurface { width: floor_u32_of(s.width), height: floor_u32_of(s.height) })
        } else {
            after_surface(s)
        },
        FrameEvent::SurfaceCreated => after_surface(SessionModel { surface_ready: true, ..s }),
        FrameEvent::SurfaceFailed => if s.widget == WidgetPhase::Pending {
            (SessionModel { widget: WidgetPhase::Building, ..s }, FrameAction::BuildWidget)
        } else {
            (s, FrameAction::Skip)
        },
        FrameEvent::WidgetBuilt => if s.widget == WidgetPhase::Building {
            let n = SessionModel { widget: WidgetPhase::Ready, ..s };
            (n, if n.surface_ready { FrameAction::Render } else { FrameAction::Skip })
        } else {
            (s, FrameAction::Skip)
        },
    }
}

/// What a translated event asks for, given whether the widget tree exists:
/// pointer and keyboard events wait for the widget tree, a resize is always
/// carried out on whatever of the surface and the widget tree exists.
pub open spec fn dispatch_of<K>(ready: bool, ev: MasonryEvent<K>) -> Dispatch<K> {
    match ev {
        MasonryEvent::Pointer(p) => if ready { Dispatch::Pointer(p) } else { Dispatch::Absorbed },
        MasonryEvent::Keyboard(k) => if ready { Dispatch::Keyboard(k) } else { Dispatch::Absorbed },
        MasonryEvent::Resize { width, height, scale } => Dispatch::Resize { width, height, scale },
        MasonryEvent::Focus(_) => Dispatch::Absorbed,
        MasonryEvent::Close => Dispatch::Absorbed,
    }
}

/// The session after the translated event `ev`: a resize sets the logical
/// size; a close marks the session closed.
pub open spec fn absorb<K>(s: SessionModel, ev: MasonryEvent<K>) -> SessionModel {
    match ev {
        MasonryEvent::Resize { width, height, scale } => SessionModel {
            width: logical_size_of(width, scale),
            height: logical_size_of(height, scale),
            ..s
        },
        MasonryEvent::Close => SessionModel { closed: true, ..s },
        _ => s,
    }
}

/// The state of one window: the lifecycle, the logical size and the input
/// translator.
pub struct WindowSession {
    widget: WidgetPhase,
    surface_ready: bool,
    closed: bool,
    width: Ratio,
    height: Ratio,
    translator: EventTranslator,
}

impl View for WindowSession {
    type V = SessionModel;

    closed spec fn view(&self) -> SessionModel {
        SessionModel {
            widget: self.widget,
            surface_ready: self.surface_ready,
            closed: self.closed,
            width: self.width,
            height: self.height,
            translator: self.translator@,
        }
    }
}

/// A fresh session of the given logical size, at scale one.
pub open spec fn initial_session(width: u32, height: u32) -> SessionModel {
    SessionModel {
        widget: WidgetPhase::Pending,
        surface_ready: false,
        closed: false,
        width: Ratio { num: width as i64, den: 1 },
        height: Ratio { num: height as i64, den: 1 },
        translator: TranslatorModel {
            x: Ratio { num: 0, den: 1 },
            y: Ratio { num: 0, den: 1 },
            buttons: crate::input::PointerButtons::none(),
            modifiers: crate::input::Modifiers::none(),
            scale: Scale { num: 1, den: 1 },
        },
    }
}

impl WindowSession {
    /// A session for a window just opened at the given logical size: the
    /// widget constructor is held, nothing is built yet.
    pub fn new(width: u32, height: u32) -> (r: WindowSession)
        ensures
            r@ == initial_session(width, height),
            r@.wf(),
    {
        WindowSession {
            widget: WidgetPhase::Pending,
            surface_ready: false,
            closed: false,
            width: Ratio { num: width as i64, den: 1 },
            height: Ratio { num: height as i64, den: 1 },
            translator: EventTranslator::new(Scale::unit()),
        }
    }

    /// Where the widget tree is in its construction.
    pub fn widget_phase(&self) -> (r: WidgetPhase)
        ensures
            r == self@.widget,
    {
        self.widget
    }

    /// Whether the GPU surface exists.
    pub fn surface_ready(&self) -> (r: bool)
        ensures
            r == self@.surface_ready,
    {
        self.surface_ready
    }

    /// Whether the host asked the window to close.
    pub fn is_closed(&self) -> (r: bool)
        ensures
            r == self@.closed,
    {
        self.closed
    }

    /// The logical size.
    pub fn logical_size(&self) -> (r: (Ratio, Ratio))
        ensures
            r == (self@.width, self@.height),
    {
        (self.width, self.height)
    }

    /// The translator's current scale factor.
    pub fn scale_factor(&self) -> (r: Scale)
        ensures
            r == self@.translator.scale,
    {
        self.translator.scale_factor()
    }

    fn after_surface(&mut self) -> (r: FrameAction)
        ensures
            (final(self)@, r) == after_surface(old(self)@),
    {
        match self.widget {
            WidgetPhase::Pending => {
                self.widget = WidgetPhase::Building;
                FrameAction::BuildWidget
            },
            WidgetPhase::Building => FrameAction::Skip,
            WidgetPhase::Ready => FrameAction::Render,
        }
    }

    /// Takes one step of a frame.
    pub fn frame_step(&mut self, event: FrameEvent) -> (r: FrameAction)
        requires
            old(self)@.wf(),
        ensures
            (final(self)@, r) == frame_step(old(self)@, event),
            final(self)@.wf(),
    {
        match event {
            FrameEvent::Tick => {
                if self.closed {
                    FrameAction::Skip
                } else if !self.surface_ready {
                    FrameAction::CreateSurface { width: floor_u32(self.width), height: floor_u32(self.height) }
                } else {
                    self.after_surface()
                }
            },
            FrameEvent::SurfaceCreated => {
                self.surface_ready = true;
                self.after_surface()
            },
            FrameEvent::SurfaceFailed => {
                if self.widget == WidgetPhase::Pending {
                    self.widget = WidgetPhase::Building;
                    FrameAction::BuildWidget
                } else {
                    FrameAction::Skip
                }
            },
            FrameEvent::WidgetBuilt => {
                if self.widget == WidgetPhase::Building {
                    self.widget = WidgetPhase::Ready;
                    if self.surface_ready {
                        FrameAction::Render
                    } else {
                        FrameAction::Skip
                    }
                } else {
                    FrameAction::Skip
                }
            },
        }
    }

    /// Translates a host event received `time` nanoseconds after the session
    /// began, and says what the driver must do with it; `None` when the
    /// event has no counterpart, which the host is told was ignored.
    pub fn on_event<K>(&mut self, event: HostEvent<K>, time: u64) -> (r: Option<Dispatch<K>>)
        requires
            old(self)@.wf(),
            event_wf(event),
        ensures
            final(self)@.translator == translate_step(old(self)@.translator, event),
            final(self)@.wf(),
            match translate_output(old(self)@.translator, event, time) {
                None => {
                    &&& r is None
                    &&& final(self)@ == (SessionModel { translator: final(self)@.translator, ..old(self)@ })
                },
                Some(ev) => {
                    &&& r == Some(dispatch_of(old(self)@.widget == WidgetPhase::Ready, ev))
                    &&& final(self)@ == (SessionModel {
                        translator: final(self)@.translator,
                        ..absorb(old(self)@, ev)
                    })
                },
            },
    {
        let translated = self.translator.translate(event, time);
        match translated {
            None => None,
            Some(ev) => {
                let ready = self.widget == WidgetPhase::Ready;
                match ev {
                    MasonryEvent::Pointer(p) => Some(if ready { Dispatch::Pointer(p) } else { Dispatch::Absorbed }),
                    MasonryEvent::Keyboard(k) => Some(if ready { Dispatch::Keyboard(k) } else { Dispatch::Absorbed }),
                    MasonryEvent::Resize { width, height, scale } => {
                        self.width = size_to_logical(width, scale);
                        self.height = size_to_logical(height, scale);
                        self.translator.set_scale_factor(scale);
                        Some(Dispatch::Resize { width, height, scale })
                    },
                    MasonryEvent::Focus(_) => Some(Dispatch::Absorbed),
                    MasonryEvent::Close => {
                        self.closed = true;
                        Some(Dispatch::Absorbed)
                    },
                }
            },
        }
    }
}

/// The session and the actions after each event of `es` in turn.
pub open spec fn frame_run(s: SessionModel, es: Seq<FrameEvent>) -> (SessionModel, Seq<FrameAction>)
    decreases es.len(),
{
    if es.len() == 0 {
        (s, Seq::empty())
    } else {
        let (n, a) = frame_step(s, es[0]);
        let (f, rest) = frame_run(n, es.drop_first());
        (f, seq![a].add(rest))
    }
}

/// How many times the actions ask for the widget constructor.
pub open spec fn count_builds(acts: Seq<FrameAction>) -> nat
    decreases acts.len(),
{
    if acts.len() == 0 {
        0
    } else {
        (if acts[0] == FrameAction::BuildWidget { 1nat } else { 0nat }) + count_builds(acts.drop_first())
    }
}

/// One while the session still holds the widget constructor, else zero.
pub open spec fn held(s: SessionModel) -> nat {
    if s.widget == WidgetPhase::Pending { 1 } else { 0 }
}

/// A frame step renders only when the widget tree and the GPU surface are
/// both there.
pub proof fn lemma_render_needs_both(s: SessionModel, e: FrameEvent)
    ensures
        frame_step(s, e).1 == FrameAction::Render ==> {
            &&& frame_step(s, e).0.widget == WidgetPhase::Ready
            &&& frame_step(s, e).0.surface_ready
        },
{
}

/// While the widget constructor has not reported back, no frame is
/// rendered, however many frames pass and whatever the GPU surface does.
pub proof fn lemma_no_render_without_widget(s: SessionModel, es: Seq<FrameEvent>)
    requires
        s.widget != WidgetPhase::Ready,
        forall|i: int| 0 <= i < es.len() ==> #[trigger] es[i] != FrameEvent::WidgetBuilt,
    ensures
        forall|i: int| 0 <= i < frame_run(s, es).1.len() ==> #[trigger] frame_run(s, es).1[i] != FrameAction::Render,
        frame_run(s, es).1.len() == es.len(),
    decreases es.len(),
{
    if es.len() > 0 {
        let (n, a) = frame_step(s, es[0]);
        let rest = es.drop_first();
        assert(es[0] != FrameEvent::WidgetBuilt);
        assert forall|i: int| 0 <= i < rest.len() implies #[trigger] rest[i] != FrameEvent::WidgetBuilt by {
            assert(rest[i] == es[i + 1]);
        }
        lemma_no_render_without_widget(n, rest);
        let acts = frame_run(s, es).1;
        assert(acts == seq![a].add(frame_run(n, rest).1));
        assert forall|i: int| 0 <= i < acts.len() implies #[trigger] acts[i] != FrameAction::Render by {
            if i > 0 {
                assert(acts[i] == frame_run(n, rest).1[i - 1]);
            }
        }
    }
}

proof fn lemma_builds_balance(s: SessionModel, es: Seq<FrameEvent>)
    ensures
        count_builds(frame_run(s, es).1) + held(frame_run(s, es).0) == held(s),
    decreases es.len(),
{
    if es.len() > 0 {
        let (n, a) = frame_step(s, es[0]);
        let rest = es.drop_first();
        lemma_builds_balance(n, rest);
        let acts = seq![a].add(frame_run(n, rest).1);
        assert(acts[0] == a);
        assert(acts.drop_first() == frame_run(n, rest).1);
    }
}

proof fn lemma_stays_taken(s: SessionModel, es: Seq<FrameEvent>)
    requires
        s.widget != WidgetPhase::Pending,
    ensures
        frame_run(s, es).0.widget != WidgetPhase::Pending,
    decreases es.len(),
{
    if es.len() > 0 {
        lemma_stays_taken(frame_step(s, es[0]).0, es.drop_first());
    }
}

/// The event reports how an attempt to create the GPU surface ended.
pub open spec fn is_surface_outcome(e: FrameEvent) -> bool {
    e == FrameEvent::SurfaceCreated || e == FrameEvent::SurfaceFailed
}

proof fn lemma_taken_after_surface_outcome(s: SessionModel, es: Seq<FrameEvent>)
    requires
        exists|i: int| 0 <= i < es.len() && is_surface_outcome(#[trigger] es[i]),
    ensures
        frame_run(s, es).0.widget != WidgetPhase::Pending,
    decreases es.len(),
{
    let n = frame_step(s, es[0]).0;
    let rest = es.drop_first();
    if is_surface_outcome(es[0]) {
        lemma_stays_taken(n, rest);
    } else {
        let i = choose|i: int| 0 <= i < es.len() && is_surface_outcome(#[trigger] es[i]);
        assert(rest[i - 1] == es[i]);
        lemma_taken_after_surface_outcome(n, rest);
    }
}

/// From a fresh session, over any run of frame steps, the widget
/// constructor is asked for at most once; it is asked for exactly once as
/// soon as the session no longer holds it, and that is so after any run in
/// which an attempt to create the GPU surface was reported, whether it
/// succeeded or failed.
pub proof fn lemma_constructor_called_once(width: u32, height: u32, es: Seq<FrameEvent>)
    ensures
        count_builds(frame_run(initial_session(width, height), es).1) <= 1,
        count_builds(frame_run(initial_session(width, height), es).1) == 1
            <==> frame_run(initial_session(width, height), es).0.widget != WidgetPhase::Pending,
        (exists|i: int| 0 <= i < es.len() && is_surface_outcome(#[trigger] es[i]))
            ==> count_builds(frame_run(initial_session(width, height), es).1) == 1,
{
    let s = initial_session(width, height);
    lemma_builds_balance(s, es);
    if exists|i: int| 0 <= i < es.len() && is_surface_outcome(#[trigger] es[i]) {
        lemma_taken_after_surface_outcome(s, es);
    }
}

} // verus!
