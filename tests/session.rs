use masonry_baseview::geometry::{Ratio, Scale};
use masonry_baseview::input::{HostEvent, Modifiers, MouseEvent, WindowEvent};
use masonry_baseview::window::{Dispatch, FrameAction, FrameEvent, WidgetPhase, WindowSession};

/// Runs one frame callback the way a driver does, with surface creation
/// succeeding or not, and counts constructor calls and renders.
fn run_frame(s: &mut WindowSession, surface_ok: bool, builds: &mut u32, renders: &mut u32) {
    let mut action = s.frame_step(FrameEvent::Tick);
    loop {
        action = match action {
            FrameAction::CreateSurface { .. } => {
                if surface_ok {
                    s.frame_step(FrameEvent::SurfaceCreated)
                } else {
                    s.frame_step(FrameEvent::SurfaceFailed)
                }
            }
            FrameAction::BuildWidget => {
                *builds += 1;
                s.frame_step(FrameEvent::WidgetBuilt)
            }
            FrameAction::Render => {
                *renders += 1;
                break;
            }
            FrameAction::Skip => break,
        };
    }
}

fn ready_session() -> WindowSession {
    let mut s = WindowSession::new(400, 300);
    let (mut b, mut r) = (0, 0);
    run_frame(&mut s, true, &mut b, &mut r);
    s
}

#[test]
fn first_frame_creates_surface_at_logical_size() {
    let mut s = WindowSession::new(400, 300);
    assert_eq!(s.frame_step(FrameEvent::Tick), FrameAction::CreateSurface { width: 400, height: 300 });
    assert_eq!(s.frame_step(FrameEvent::SurfaceCreated), FrameAction::BuildWidget);
    assert_eq!(s.widget_phase(), WidgetPhase::Building);
    assert_eq!(s.frame_step(FrameEvent::WidgetBuilt), FrameAction::Render);
    assert_eq!(s.frame_step(FrameEvent::Tick), FrameAction::Render);
}

#[test]
fn surface_failure_still_builds_widget_and_retries_surface() {
    let mut s = WindowSession::new(10, 10);
    assert!(matches!(s.frame_step(FrameEvent::Tick), FrameAction::CreateSurface { .. }));
    assert_eq!(s.frame_step(FrameEvent::SurfaceFailed), FrameAction::BuildWidget);
    assert_eq!(s.widget_phase(), WidgetPhase::Building);
    // No surface yet: the built widget tree is not rendered.
    assert_eq!(s.frame_step(FrameEvent::WidgetBuilt), FrameAction::Skip);
    assert_eq!(s.widget_phase(), WidgetPhase::Ready);
    assert_eq!(s.frame_step(FrameEvent::Tick), FrameAction::CreateSurface { width: 10, height: 10 });
    assert_eq!(s.frame_step(FrameEvent::SurfaceCreated), FrameAction::Render);
}

#[test]
fn constructor_counter_reaches_exactly_one() {
    let mut s = WindowSession::new(400, 300);
    let (mut builds, mut renders) = (0, 0);
    run_frame(&mut s, false, &mut builds, &mut renders);
    assert_eq!(builds, 1);
    assert_eq!(renders, 0);
    run_frame(&mut s, false, &mut builds, &mut renders);
    assert_eq!(builds, 1);
    assert_eq!(renders, 0);
    for _ in 0..50 {
        run_frame(&mut s, true, &mut builds, &mut renders);
    }
    assert_eq!(builds, 1);
    assert_eq!(renders, 50);
}

#[test]
fn no_render_while_constructor_has_not_returned() {
    let mut s = WindowSession::new(400, 300);
    assert!(matches!(s.frame_step(FrameEvent::Tick), FrameAction::CreateSurface { .. }));
    assert_eq!(s.frame_step(FrameEvent::SurfaceCreated), FrameAction::BuildWidget);
    for _ in 0..20 {
        assert_eq!(s.frame_step(FrameEvent::Tick), FrameAction::Skip);
    }
    assert!(s.surface_ready());
}

#[test]
fn constructor_called_once_when_surface_never_comes() {
    let mut s = WindowSession::new(400, 300);
    let (mut builds, mut renders) = (0, 0);
    for _ in 0..30 {
        run_frame(&mut s, false, &mut builds, &mut renders);
    }
    assert_eq!(builds, 1);
    assert_eq!(renders, 0);
}

#[test]
fn resize_before_first_frame_sizes_the_first_surface() {
    let mut s = WindowSession::new(400, 300);
    let r = s.on_event(
        HostEvent::<()>::Window(WindowEvent::Resized { width: 1000, height: 700, scale: Scale { num: 2, den: 1 } }),
        0,
    );
    assert!(matches!(r, Some(Dispatch::Resize { width: 1000, height: 700, .. })));
    assert_eq!(s.logical_size(), (Ratio { num: 1000, den: 2 }, Ratio { num: 700, den: 2 }));
    assert_eq!(s.scale_factor(), Scale { num: 2, den: 1 });
    assert_eq!(s.frame_step(FrameEvent::Tick), FrameAction::CreateSurface { width: 500, height: 350 });
}

#[test]
fn input_before_widget_is_absorbed() {
    let mut s = WindowSession::new(400, 300);
    let r = s.on_event(HostEvent::<()>::Mouse(MouseEvent::CursorEntered), 0);
    assert!(matches!(r, Some(Dispatch::Absorbed)));
    let r = s.on_event(HostEvent::<()>::Mouse(MouseEvent::Drag), 0);
    assert!(r.is_none());
}

#[test]
fn pointer_input_reaches_ready_widget() {
    let mut s = ready_session();
    let r = s.on_event(
        HostEvent::<()>::Mouse(MouseEvent::CursorMoved { x: 5, y: 6, modifiers: Modifiers::empty() }),
        3,
    );
    assert!(matches!(r, Some(Dispatch::Pointer(_))));
}

#[test]
fn resize_sets_logical_size_and_scale() {
    let mut s = ready_session();
    let r = s.on_event(
        HostEvent::<()>::Window(WindowEvent::Resized { width: 1600, height: 1200, scale: Scale { num: 2, den: 1 } }),
        0,
    );
    assert!(matches!(r, Some(Dispatch::Resize { width: 1600, height: 1200, .. })));
    assert_eq!(s.logical_size(), (Ratio { num: 1600, den: 2 }, Ratio { num: 1200, den: 2 }));
    assert_eq!(s.scale_factor(), Scale { num: 2, den: 1 });
}

#[test]
fn close_stops_rendering() {
    let mut s = ready_session();
    let r = s.on_event(HostEvent::<()>::Window(WindowEvent::WillClose), 0);
    assert!(matches!(r, Some(Dispatch::Absorbed)));
    assert!(s.is_closed());
    assert_eq!(s.frame_step(FrameEvent::Tick), FrameAction::Skip);
}
