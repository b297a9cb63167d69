use wake_surface::driver::{AcquireFailure, AcquireOutcome, Action, ApplicationState, Event};
use wake_surface::surface::{preferred_format, FramePlan, StaleReason, SurfaceLifecycle, SurfaceState};
use wake_surface::wake::{Registration, WakePipe};

const F: u32 = 23;

fn is_draw(a: &Action) -> bool {
    matches!(a, Action::AcquireFrame | Action::Present)
}

#[test]
fn create_window_configures_surface() {
    let mut app = ApplicationState::new();
    let r = app.handle(Event::WindowCreated { width: 800, height: 600, format: F });
    assert_eq!(r, vec![Action::Configure { width: 800, height: 600, format: F }]);
    assert_eq!(
        app.surface_state(),
        SurfaceState::Configured { width: 800, height: 600, format: F }
    );
}

#[test]
fn resize_goes_stale_then_reconfigures_before_acquire() {
    let mut app = ApplicationState::new();
    app.handle(Event::WindowCreated { width: 800, height: 600, format: F });
    let r = app.handle(Event::Resized { width: 400, height: 300 });
    assert_eq!(r, vec![Action::RequestRedraw]);
    assert_eq!(
        app.surface_state(),
        SurfaceState::Stale { reason: StaleReason::Resized, width: 400, height: 300, format: F }
    );
    let r = app.handle(Event::RedrawRequested);
    assert_eq!(
        r,
        vec![Action::Configure { width: 400, height: 300, format: F }, Action::AcquireFrame]
    );
    assert_eq!(
        app.surface_state(),
        SurfaceState::Configured { width: 400, height: 300, format: F }
    );
    let r = app.handle(Event::FrameAcquired { outcome: AcquireOutcome::Ready });
    assert_eq!(r, vec![Action::Present]);
}

#[test]
fn destroy_while_configured_loses_surface_and_skips_redraw() {
    let mut app = ApplicationState::new();
    app.handle(Event::WindowCreated { width: 800, height: 600, format: F });
    let r = app.handle(Event::Destroyed);
    assert_eq!(r, vec![Action::ReleaseGraphics]);
    assert_eq!(app.surface_state(), SurfaceState::Lost);
    let r = app.handle(Event::RedrawRequested);
    assert_eq!(r, vec![Action::RequestRedraw]);
    assert!(!r.iter().any(is_draw));
    let r = app.handle(Event::FrameAcquired { outcome: AcquireOutcome::Ready });
    assert!(r.is_empty());
    assert_eq!(app.surface_state(), SurfaceState::Lost);
}

#[test]
fn draws_only_coincide_with_configured_surface() {
    let mut app = ApplicationState::new();
    let order = [
        Event::WindowCreated { width: 800, height: 600, format: F },
        Event::Resized { width: 640, height: 480 },
        Event::Destroyed,
        Event::Resized { width: 320, height: 240 },
        Event::WindowCreated { width: 1024, height: 768, format: F },
        Event::Suspended,
        Event::WindowCreated { width: 10, height: 20, format: F },
        Event::Resized { width: 30, height: 40 },
        Event::Resized { width: 50, height: 60 },
    ];
    let mut draws = 0;
    for e in order {
        for ev in [e, Event::RedrawRequested, Event::FrameAcquired { outcome: AcquireOutcome::Ready }] {
            let r = app.handle(ev);
            if r.iter().any(is_draw) {
                draws += 1;
                assert!(matches!(app.surface_state(), SurfaceState::Configured { .. }));
            }
        }
    }
    assert_eq!(draws, 12);
    assert_eq!(
        app.surface_state(),
        SurfaceState::Configured { width: 50, height: 60, format: F }
    );
}

#[test]
fn resize_never_reaches_configured_directly() {
    let mut s = SurfaceLifecycle::new();
    s.resized(5, 6);
    assert_eq!(s.state(), SurfaceState::Unconfigured);
    s.window_created(1, 2, F);
    s.resized(5, 6);
    assert!(!s.is_configured());
    s.resized(7, 8);
    assert_eq!(
        s.state(),
        SurfaceState::Stale { reason: StaleReason::Resized, width: 7, height: 8, format: F }
    );
    assert_eq!(
        s.begin_frame(),
        FramePlan::ReconfigureThenDraw { width: 7, height: 8, format: F }
    );
    assert_eq!(s.begin_frame(), FramePlan::Draw);
    s.torn_down();
    assert_eq!(s.begin_frame(), FramePlan::Skip);
    assert_eq!(s.state(), SurfaceState::Lost);
}

#[test]
fn resize_without_window_is_ignored() {
    let mut app = ApplicationState::new();
    let r = app.handle(Event::Resized { width: 400, height: 300 });
    assert!(r.is_empty());
    assert_eq!(app.surface_state(), SurfaceState::Unconfigured);
    let r = app.handle(Event::RedrawRequested);
    assert_eq!(r, vec![Action::RequestRedraw]);
}

#[test]
fn transient_acquire_requests_another_redraw() {
    let mut app = ApplicationState::new();
    app.handle(Event::WindowCreated { width: 8, height: 6, format: F });
    assert_eq!(app.handle(Event::RedrawRequested), vec![Action::AcquireFrame]);
    let r = app.handle(Event::FrameAcquired { outcome: AcquireOutcome::Transient });
    assert_eq!(r, vec![Action::RequestRedraw]);
    assert!(!app.is_exiting());
}

#[test]
fn fatal_acquire_releases_resources_then_aborts() {
    let mut app = ApplicationState::new();
    app.with_looper(WakePipe::create(0, 4).unwrap());
    app.handle(Event::WindowCreated { width: 8, height: 6, format: F });
    app.handle(Event::RedrawRequested);
    let r = app.handle(Event::FrameAcquired { outcome: AcquireOutcome::Fatal });
    assert_eq!(r, vec![Action::ReleaseGraphics, Action::ClosePipe, Action::Abort]);
    assert!(app.is_exiting());
    assert_eq!(app.surface_state(), SurfaceState::Lost);
    assert_eq!(app.wake_registration(), Some(Registration::Closed));
}

#[test]
fn close_releases_in_reverse_order_and_stops_dispatch() {
    let mut app = ApplicationState::new();
    app.with_looper(WakePipe::create(0, 4).unwrap());
    app.handle(Event::WindowCreated { width: 8, height: 6, format: F });
    let r = app.handle(Event::CloseRequested);
    assert_eq!(r, vec![Action::ReleaseGraphics, Action::ClosePipe, Action::Exit]);
    assert!(app.is_exiting());
    assert!(app.handle(Event::WindowCreated { width: 1, height: 1, format: F }).is_empty());
    assert!(app.handle(Event::RedrawRequested).is_empty());
    assert!(app.handle(Event::TouchEnded).is_empty());
    assert!(app.handle(Event::CloseRequested).is_empty());
    assert_eq!(app.surface_state(), SurfaceState::Lost);
}

#[test]
fn close_without_window_or_pipe_just_exits() {
    let mut app = ApplicationState::new();
    assert_eq!(app.handle(Event::CloseRequested), vec![Action::Exit]);
}

#[test]
fn window_recreated_after_loss_is_configured_again() {
    let mut app = ApplicationState::new();
    app.handle(Event::WindowCreated { width: 800, height: 600, format: F });
    app.handle(Event::Suspended);
    assert_eq!(app.surface_state(), SurfaceState::Lost);
    assert!(app.handle(Event::Suspended).is_empty());
    let r = app.ensure_render_state_for_surface(320, 200, F);
    assert_eq!(r, Action::Configure { width: 320, height: 200, format: F });
    assert_eq!(
        app.surface_state(),
        SurfaceState::Configured { width: 320, height: 200, format: F }
    );
    assert!(app.handle(Event::Other).is_empty());
}

#[test]
fn preferred_format_takes_first_srgb_else_first() {
    assert_eq!(preferred_format(&vec![false, true, true]), Some(1));
    assert_eq!(preferred_format(&vec![true, false]), Some(0));
    assert_eq!(preferred_format(&vec![false, false, false]), Some(0));
    assert_eq!(preferred_format(&vec![]), None);
}

#[test]
fn only_exhausted_memory_is_fatal() {
    assert_eq!(AcquireOutcome::from_failure(AcquireFailure::OutOfMemory), AcquireOutcome::Fatal);
    for f in [AcquireFailure::Timeout, AcquireFailure::Outdated, AcquireFailure::Lost] {
        assert_eq!(AcquireOutcome::from_failure(f), AcquireOutcome::Transient);
    }
}
