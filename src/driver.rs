use vstd::prelude::*;

use crate::surface::{
    after_begin_frame, after_resize, after_teardown, after_window_created, has_surface, plan_for,
    FramePlan, SurfaceLifecycle, SurfaceState,
};
use crate::wake::{
    after_close, after_signal, after_wake, wake_decision, Registration, WakeModel, WakePipe,
};

verus! {

/// How acquiring the next presentable frame turned out.
#[derive(Clone, Copy, Debug, PartialEq, Eq, Structural)]
pub enum AcquireOutcome {
    Ready,
    /// The target is unavailable for now; retried on the next redraw.
    Transient,
    /// The backing resource is exhausted; rendering cannot continue.
    Fatal,
}

/// Why acquiring a frame failed, as the graphics API reports it.
#[derive(Clone, Copy, Debug, PartialEq, Eq, Structural)]
pub enum AcquireFailure {
    Timeout,
    Outdated,
    Lost,
    OutOfMemory,
}

pub open spec fn outcome_of(f: AcquireFailure) -> AcquireOutcome {
    if f == AcquireFailure::OutOfMemory {
        AcquireOutcome::Fatal
    } else {
        AcquireOutcome::Transient
    }
}

impl AcquireOutcome {
    /// Exhausted memory is fatal; every other failure is retried on the next redraw.
    pub fn from_failure(f: AcquireFailure) -> (r: AcquireOutcome)
        ensures
            r == outcome_of(f),
    {
        match f {
            AcquireFailure::OutOfMemory => AcquireOutcome::Fatal,
            _ => AcquireOutcome::Transient,
        }
    }
}

/// One event handed to the driver by the platform loop.
#[derive(Clone, Copy, Debug, PartialEq, Eq, Structural)]
pub enum Event {
    /// A window was created (or recreated on resume) at this physical size.
    WindowCreated { width: u32, height: u32, format: u32 },
    Resized { width: u32, height: u32 },
    Suspended,
    Destroyed,
    RedrawRequested,
    /// The result of the `AcquireFrame` action.
    FrameAcquired { outcome: AcquireOutcome },
    /// A touch gesture ended: the notification side channel is to be signalled.
    TouchEnded,
    /// The result of the one-byte write asked for by `SignalWake`.
    SignalWritten { bytes_written: isize },
    /// The wait returned for the wake pipe; one byte was read from it.
    Wake { bytes_read: isize },
    CloseRequested,
    /// Any event the driver has no use for.
    Other,
}

/// One effect for the platform loop to perform, in the order given.
#[derive(Clone, Copy, Debug, PartialEq, Eq, Structural)]
pub enum Action {
    Configure { width: u32, height: u32, format: u32 },
    AcquireFrame,
    Present,
    RequestRedraw,
    /// Write one byte to the wake pipe's write end.
    SignalWake,
    /// Run the notification action (on the UI thread, where this is decided).
    Notify,
    /// Detach the wake pipe's read end from the wait.
    StopListening,
    /// Drop the surface, its device and queue, then the window.
    ReleaseGraphics,
    /// Close both ends of the wake pipe.
    ClosePipe,
    Exit,
    /// Terminate with a diagnostic: a frame could not be acquired for good.
    Abort,
}

/// The driver in mathematical terms.
pub ghost struct AppModel {
    pub surface: SurfaceState,
    pub pipe: Option<WakeModel>,
    pub exiting: bool,
}

/// Once exiting, no surface is left to draw to.
pub open spec fn valid(m: AppModel) -> bool {
    &&& m.exiting ==> !has_surface(m.surface)
    &&& m.pipe matches Some(p) ==> p.consistent()
}

pub open spec fn is_draw(a: Action) -> bool {
    a == Action::AcquireFrame || a == Action::Present
}

pub open spec fn shutdown_actions(m: AppModel, last: Action) -> Seq<Action> {
    (if has_surface(m.surface) {
        seq![Action::ReleaseGraphics]
    } else {
        Seq::empty()
    }) + (if m.pipe is Some {
        seq![Action::ClosePipe]
    } else {
        Seq::empty()
    }) + seq![last]
}

pub open spec fn shutdown_model(m: AppModel) -> AppModel {
    AppModel {
        surface: after_teardown(m.surface),
        pipe: match m.pipe {
            Some(p) => Some(after_close(p)),
            None => None,
        },
        exiting: true,
    }
}

pub open spec fn signal_actions(m: AppModel) -> Seq<Action> {
    match m.pipe {
        Some(p) => if p.registration != Registration::Closed {
            seq![Action::SignalWake]
        } else {
            Seq::empty()
        },
        None => Seq::empty(),
    }
}

pub open spec fn wake_actions(m: AppModel, bytes_read: int) -> Seq<Action> {
    match m.pipe {
        Some(p) => {
            let d = wake_decision(p, bytes_read);
            (if d.notify {
                seq![Action::Notify]
            } else {
                Seq::empty()
            }) + (if d.keep_listening {
                Seq::empty()
            } else {
                seq![Action::StopListening]
            })
        },
        None => seq![Action::StopListening],
    }
}

pub open spec fn redraw_actions(s: SurfaceState) -> Seq<Action> {
    match plan_for(s) {
        FramePlan::Draw => seq![Action::AcquireFrame],
        FramePlan::ReconfigureThenDraw { width, height, format } => seq![
            Action::Configure { width, height, format },
            Action::AcquireFrame,
        ],
        FramePlan::Skip => seq![Action::RequestRedraw],
    }
}

pub open spec fn acquired_actions(m: AppModel, outcome: AcquireOutcome) -> Seq<Action> {
    if !(m.surface is Configured) {
        Seq::empty()
    } else {
        match outcome {
            AcquireOutcome::Ready => seq![Action::Present],
            AcquireOutcome::Transient => seq![Action::RequestRedraw],
            AcquireOutcome::Fatal => shutdown_actions(m, Action::Abort),
        }
    }
}

/// The effects of one event. After exit nothing is dispatched.
pub open spec fn actions_for(m: AppModel, e: Event) -> Seq<Action> {
    if m.exiting {
        Seq::empty()
    } else {
        match e {
            Event::WindowCreated { width, height, format } => seq![
                Action::Configure { width, height, format },
            ],
            Event::Resized { .. } => if has_surface(m.surface) {
                seq![Action::RequestRedraw]
            } else {
                Seq::empty()
            },
            Event::Suspended | Event::Destroyed => if has_surface(m.surface) {
                seq![Action::ReleaseGraphics]
            } else {
                Seq::empty()
            },
            Event::RedrawRequested => redraw_actions(m.surface),
            Event::FrameAcquired { outcome } => acquired_actions(m, outcome),
            Event::TouchEnded => signal_actions(m),
            Event::SignalWritten { .. } => Seq::empty(),
            Event::Wake { bytes_read } => wake_actions(m, bytes_read as int),
            Event::CloseRequested => shutdown_actions(m, Action::Exit),
            Event::Other => Seq::empty(),
        }
    }
}

/// The state after one event.
pub open spec fn next(m: AppModel, e: Event) -> AppModel {
    if m.exiting {
        m
    } else {
        match e {
            Event::WindowCreated { width, height, format } => AppModel {
                surface: after_window_created(width, height, format),
                ..m
            },
            Event::Resized { width, height } => AppModel {
                surface: after_resize(m.surface, width, height),
                ..m
            },
            Event::Suspended | Event::Destroyed => AppModel {
                surface: after_teardown(m.surface),
                ..m
            },
            Event::RedrawRequested => AppModel { surface: after_begin_frame(m.surface), ..m },
            Event::FrameAcquired { outcome } => if m.surface is Configured && outcome
                == AcquireOutcome::Fatal {
                shutdown_model(m)
            } else {
                m
            },
            Event::SignalWritten { bytes_written } => AppModel {
                pipe: match m.pipe {
                    Some(p) => Some(after_signal(p, bytes_written as int)),
                    None => None,
                },
                ..m
            },
            Event::Wake { bytes_read } => AppModel {
                pipe: match m.pipe {
                    Some(p) => Some(after_wake(p, bytes_read as int)),
                    None => None,
                },
                ..m
            },
            Event::CloseRequested => shutdown_model(m),
            _ => m,
        }
    }
}

/// The state after the events `es`, in order.
pub open spec fn run(m: AppModel, es: Seq<Event>) -> AppModel
    decreases es.len(),
{
    if es.len() == 0 {
        m
    } else {
        next(run(m, es.drop_last()), es.last())
    }
}

/// Every event keeps the driver's state valid.
pub proof fn lemma_next_valid(m: AppModel, e: Event)
    requires
        valid(m),
    ensures
        valid(next(m, e)),
{
}

/// A draw call (`AcquireFrame` or `Present`) is only ever asked for when the
/// surface, as the same event leaves it, is configured: a stale surface is
/// reconfigured first, and without a surface the frame is skipped.
pub proof fn lemma_draws_only_when_configured(m: AppModel, e: Event)
    requires
        valid(m),
    ensures
        forall|i: int|
            0 <= i < actions_for(m, e).len() && is_draw(#[trigger] actions_for(m, e)[i])
                ==> next(m, e).surface is Configured,
{
}

/// Over any ordering of events (create, resize, destroy, resize, create, ...),
/// every state reached is valid and every draw call coincides with a
/// configured surface.
pub proof fn lemma_run_draws_only_when_configured(m: AppModel, es: Seq<Event>)
    requires
        valid(m),
    ensures
        valid(run(m, es)),
        forall|i: int, j: int|
            0 <= i < es.len() && 0 <= j < actions_for(run(m, es.take(i)), es[i]).len()
                && is_draw(#[trigger] actions_for(run(m, es.take(i)), es[i])[j]) ==> next(
                run(m, es.take(i)),
                es[i],
            ).surface is Configured,
    decreases es.len(),
{
    if es.len() > 0 {
        let front = es.drop_last();
        lemma_run_draws_only_when_configured(m, front);
        lemma_next_valid(run(m, front), es.last());
        assert forall|i: int, j: int|
            0 <= i < es.len() && 0 <= j < actions_for(run(m, es.take(i)), es[i]).len()
                && is_draw(#[trigger] actions_for(run(m, es.take(i)), es[i])[j]) implies next(
            run(m, es.take(i)),
            es[i],
        ).surface is Configured by {
            if i < front.len() {
                assert(es.take(i) =~= front.take(i));
                assert(es[i] == front[i]);
            } else {
                assert(es.take(i) =~= front);
                lemma_draws_only_when_configured(run(m, front), es.last());
            }
        }
    }
}

/// The driver never reaches a configured surface directly from a resize.
pub proof fn lemma_resize_goes_stale(m: AppModel, width: u32, height: u32)
    requires
        valid(m),
    ensures
        !(next(m, Event::Resized { width, height }).surface is Configured),
        !m.exiting && has_surface(m.surface) ==> next(
            m,
            Event::Resized { width, height },
        ).surface is Stale,
{
}

/// The single dispatcher of the UI thread: it owns the surface lifecycle and
/// the wake pipe, takes one event at a time, and answers with the effects to
/// perform. Lifecycle transitions are made before any redraw that the same
/// event asks for.
pub struct ApplicationState {
    surface: SurfaceLifecycle,
    pipe: Option<WakePipe>,
    exiting: bool,
}

impl View for ApplicationState {
    type V = AppModel;

    closed spec fn view(&self) -> AppModel {
        AppModel {
            surface: self.surface@,
            pipe: match self.pipe {
                Some(p) => Some(p@),
                None => None,
            },
            exiting: self.exiting,
        }
    }
}

impl ApplicationState {
    pub closed spec fn wf(&self) -> bool {
        &&& valid(self@)
        &&& self.pipe matches Some(p) ==> p.wf()
    }

    pub fn new() -> (r: ApplicationState)
        ensures
            r.wf(),
            r@ == (AppModel { surface: SurfaceState::Unconfigured, pipe: None, exiting: false }),
    {
        ApplicationState { surface: SurfaceLifecycle::new(), pipe: None, exiting: false }
    }

    /// Hands the driver the wake pipe that it services from now on.
    pub fn with_looper(&mut self, looper: WakePipe) -> (r: &mut Self)
        requires
            old(self).wf(),
            looper.wf(),
        ensures
            r.wf(),
            r@ == (AppModel { pipe: Some(looper@), ..old(self)@ }),
            *final(self) == *final(r),
    {
        proof {
            looper.lemma_wf_consistent();
        }
        self.pipe = Some(looper);
        self
    }

    pub fn surface_state(&self) -> (r: SurfaceState)
        ensures
            r == self@.surface,
    {
        self.surface.state()
    }

    pub fn is_exiting(&self) -> (r: bool)
        ensures
            r == self@.exiting,
    {
        self.exiting
    }

    /// The wake pipe's registration, if a pipe was handed over.
    pub fn wake_registration(&self) -> (r: Option<Registration>)
        ensures
            r == (match self@.pipe {
                Some(p) => Some(p.registration),
                None => None,
            }),
    {
        match &self.pipe {
            Some(p) => Some(p.registration()),
            None => None,
        }
    }

    /// Bytes signalled and not yet drained, if a pipe was handed over.
    pub fn pending_wakes(&self) -> (r: Option<u64>)
        requires
            self.wf(),
        ensures
            r == (match self@.pipe {
                Some(p) => Some(p.pending() as u64),
                None => None,
            }),
    {
        match &self.pipe {
            Some(p) => Some(p.pending()),
            None => None,
        }
    }

    /// Attaches the wake pipe's read end to the wait; `None` without a pipe.
    pub fn register_wake(&mut self) -> (r: Option<Result<(), crate::wake::WakeError>>)
        requires
            old(self).wf(),
        ensures
            final(self).wf(),
            final(self)@.surface == old(self)@.surface,
            final(self)@.exiting == old(self)@.exiting,
            match old(self)@.pipe {
                Some(p) => r == Some(crate::wake::register_result(p)) && final(self)@.pipe
                    == Some(crate::wake::after_register(p)),
                None => r is None && final(self)@.pipe is None,
            },
    {
        match &mut self.pipe {
            Some(p) => Some(p.register()),
            None => None,
        }
    }

    /// A window of `width` x `height` exists: its surface is created and
    /// configured at that size with `format`.
    pub fn ensure_render_state_for_surface(&mut self, width: u32, height: u32, format: u32) -> (r:
        Action)
        requires
            old(self).wf(),
            !old(self)@.exiting,
        ensures
            final(self).wf(),
            r == (Action::Configure { width, height, format }),
            final(self)@ == next(old(self)@, Event::WindowCreated { width, height, format }),
    {
        self.surface.window_created(width, height, format);
        Action::Configure { width, height, format }
    }

    fn shutdown(&mut self, last: Action) -> (r: Vec<Action>)
        requires
            old(self).wf(),
            !old(self)@.exiting,
        ensures
            final(self).wf(),
            r@ == shutdown_actions(old(self)@, last),
            final(self)@ == shutdown_model(old(self)@),
    {
        let mut r: Vec<Action> = Vec::new();
        if self.surface.has_surface() {
            r.push(Action::ReleaseGraphics);
        }
        self.surface.torn_down();
        match &mut self.pipe {
            Some(p) => {
                r.push(Action::ClosePipe);
                p.close();
            },
            None => {},
        }
        r.push(last);
        self.exiting = true;
        proof {
            let m = old(self)@;
            let pre = if has_surface(m.surface) {
                seq![Action::ReleaseGraphics]
            } else {
                Seq::<Action>::empty()
            };
            let mid = if m.pipe is Some {
                seq![Action::ClosePipe]
            } else {
                Seq::<Action>::empty()
            };
            assert(r@ =~= pre + mid + seq![last]);
        }
        r
    }

    fn wake(&mut self, bytes_read: isize) -> (r: Vec<Action>)
        requires
            old(self).wf(),
            !old(self)@.exiting,
        ensures
            final(self).wf(),
            r@ == wake_actions(old(self)@, bytes_read as int),
            final(self)@ == next(old(self)@, Event::Wake { bytes_read }),
    {
        let mut r: Vec<Action> = Vec::new();
        match &mut self.pipe {
            Some(p) => {
                let d = p.on_wake(bytes_read);
                if d.notify {
                    r.push(Action::Notify);
                }
                if !d.keep_listening {
                    r.push(Action::StopListening);
                }
                proof {
                    let pre = if d.notify {
                        seq![Action::Notify]
                    } else {
                        Seq::<Action>::empty()
                    };
                    let post = if d.keep_listening {
                        Seq::<Action>::empty()
                    } else {
                        seq![Action::StopListening]
                    };
                    assert(r@ =~= pre + post);
                }
            },
            None => {
                r.push(Action::StopListening);
            },
        }
        r
    }

    fn redraw(&mut self) -> (r: Vec<Action>)
        requires
            old(self).wf(),
            !old(self)@.exiting,
        ensures
            final(self).wf(),
            r@ == redraw_actions(old(self)@.surface),
            final(self)@ == next(old(self)@, Event::RedrawRequested),
    {
        match self.surface.begin_frame() {
            FramePlan::Draw => vec![Action::AcquireFrame],
            FramePlan::ReconfigureThenDraw { width, height, format } => vec![
                Action::Configure { width, height, format },
                Action::AcquireFrame,
            ],
            FramePlan::Skip => vec![Action::RequestRedraw],
        }
    }

    /// Dispatches one event: updates the state and returns the effects to
    /// perform, in order.
    pub fn handle(&mut self, event: Event) -> (r: Vec<Action>)
        requires
            old(self).wf(),
        ensures
            final(self).wf(),
            r@ == actions_for(old(self)@, event),
            final(self)@ == next(old(self)@, event),
    {
        if self.exiting {
            return Vec::new();
        }
        match event {
            Event::WindowCreated { width, height, format } => {
                let a = self.ensure_render_state_for_surface(width, height, format);
                vec![a]
            },
            Event::Resized { width, height } => {
                let had = self.surface.has_surface();
                self.surface.resized(width, height);
                if had {
                    vec![Action::RequestRedraw]
                } else {
                    Vec::new()
                }
            },
            Event::Suspended | Event::Destroyed => {
                let had = self.surface.has_surface();
                self.surface.torn_down();
                if had {
                    vec![Action::ReleaseGraphics]
                } else {
                    Vec::new()
                }
            },
            Event::RedrawRequested => self.redraw(),
            Event::FrameAcquired { outcome } => {
                if !self.surface.is_configured() {
                    Vec::new()
                } else {
                    match outcome {
                        AcquireOutcome::Ready => vec![Action::Present],
                        AcquireOutcome::Transient => vec![Action::RequestRedraw],
                        AcquireOutcome::Fatal => self.shutdown(Action::Abort),
                    }
                }
            },
            Event::TouchEnded => {
                match &self.pipe {
                    Some(p) => {
                        if p.registration() != Registration::Closed {
                            vec![Action::SignalWake]
                        } else {
                            Vec::new()
                        }
                    },
                    None => Vec::new(),
                }
            },
            Event::SignalWritten { bytes_written } => {
                match &mut self.pipe {
                    Some(p) => {
                        let _ = p.signal(bytes_written);
                    },
                    None => {},
                }
                Vec::new()
            },
            Event::Wake { bytes_read } => self.wake(bytes_read),
            Event::CloseRequested => self.shutdown(Action::Exit),
            Event::Other => Vec::new(),
        }
    }
}

} // verus!
