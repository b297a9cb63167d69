use wake_surface::driver::{Action, ApplicationState, Event};
use wake_surface::wake::{Registration, WakeDecision, WakeError, WakePipe};

fn registered_pipe(capacity: u64) -> WakePipe {
    let mut p = WakePipe::create(0, capacity).unwrap();
    assert_eq!(p.register(), Ok(()));
    p
}

#[test]
fn three_signals_each_serviced_give_three_notifications() {
    let mut app = ApplicationState::new();
    app.with_looper(WakePipe::create(0, 64).unwrap());
    assert_eq!(app.register_wake(), Some(Ok(())));
    let mut notifications = 0;
    for _ in 0..3 {
        let r = app.handle(Event::TouchEnded);
        assert_eq!(r, vec![Action::SignalWake]);
        assert!(app.handle(Event::SignalWritten { bytes_written: 1 }).is_empty());
        assert_eq!(app.pending_wakes(), Some(1));
        let r = app.handle(Event::Wake { bytes_read: 1 });
        assert_eq!(r, vec![Action::Notify]);
        notifications += r.iter().filter(|a| **a == Action::Notify).count();
        assert_eq!(app.pending_wakes(), Some(0));
    }
    assert_eq!(notifications, 3);
}

#[test]
fn batch_of_signals_is_drained_without_loss_or_duplication() {
    let mut p = registered_pipe(8);
    for _ in 0..5 {
        assert_eq!(p.signal(1), Ok(()));
    }
    assert_eq!(p.pending(), 5);
    for left in (0..5).rev() {
        let d = p.on_wake(1);
        assert_eq!(d, WakeDecision { notify: true, keep_listening: true });
        assert_eq!(p.pending(), left);
    }
    // A further delivery drains nothing the model did not see written.
    let d = p.on_wake(1);
    assert!(d.notify);
    assert_eq!(p.pending(), 0);
}

#[test]
fn backlog_never_exceeds_buffer() {
    let mut p = registered_pipe(2);
    assert_eq!(p.capacity(), 2);
    assert_eq!(p.signal(1), Ok(()));
    assert_eq!(p.signal(1), Ok(()));
    assert_eq!(p.signal(1), Ok(()));
    assert_eq!(p.pending(), 2);
}

#[test]
fn deregister_twice_is_harmless_and_stops_deliveries() {
    let mut p = registered_pipe(4);
    assert_eq!(p.signal(1), Ok(()));
    assert!(p.deregister());
    assert!(!p.deregister());
    assert_eq!(p.registration(), Registration::Deregistered);
    for read in [1, 0, -1] {
        assert_eq!(p.on_wake(read), WakeDecision { notify: false, keep_listening: false });
    }
    assert_eq!(p.pending(), 1);
    assert_eq!(p.registration(), Registration::Deregistered);
}

#[test]
fn create_failure_is_resource_exhausted() {
    assert_eq!(WakePipe::create(-1, 4).err(), Some(WakeError::ResourceExhausted));
    let p = WakePipe::create(0, 4).unwrap();
    assert_eq!(p.registration(), Registration::Unregistered);
    assert_eq!(p.pending(), 0);
}

#[test]
fn register_errors() {
    let mut p = registered_pipe(4);
    assert_eq!(p.register(), Err(WakeError::AlreadyRegistered));
    assert!(p.deregister());
    assert_eq!(p.register(), Ok(()));
    p.close();
    assert_eq!(p.registration(), Registration::Closed);
    assert_eq!(p.register(), Err(WakeError::InvalidHandle));
}

#[test]
fn failed_signal_is_broken_pipe_and_not_counted() {
    let mut p = registered_pipe(4);
    assert_eq!(p.signal(-1), Err(WakeError::BrokenPipe));
    assert_eq!(p.signal(0), Err(WakeError::BrokenPipe));
    assert_eq!(p.pending(), 0);
    p.close();
    assert_eq!(p.signal(1), Err(WakeError::BrokenPipe));
    assert_eq!(p.pending(), 0);
}

#[test]
fn empty_or_failed_read_stops_listening() {
    let mut p = registered_pipe(4);
    assert_eq!(p.on_wake(0), WakeDecision { notify: false, keep_listening: false });
    assert_eq!(p.registration(), Registration::Deregistered);
    let mut q = registered_pipe(4);
    assert_eq!(q.on_wake(-1), WakeDecision { notify: false, keep_listening: false });
    assert_eq!(q.registration(), Registration::Deregistered);
}

#[test]
fn driver_wake_after_writer_gone_stops_listening() {
    let mut app = ApplicationState::new();
    app.with_looper(WakePipe::create(0, 4).unwrap());
    app.register_wake();
    assert_eq!(app.handle(Event::Wake { bytes_read: 0 }), vec![Action::StopListening]);
    assert_eq!(app.wake_registration(), Some(Registration::Deregistered));
    assert_eq!(app.handle(Event::Wake { bytes_read: 1 }), vec![Action::StopListening]);
}

#[test]
fn driver_without_pipe_signals_nothing() {
    let mut app = ApplicationState::new();
    assert_eq!(app.register_wake(), None);
    assert!(app.handle(Event::TouchEnded).is_empty());
    assert!(app.handle(Event::SignalWritten { bytes_written: 1 }).is_empty());
    assert_eq!(app.pending_wakes(), None);
    assert_eq!(app.handle(Event::Wake { bytes_read: 1 }), vec![Action::StopListening]);
}
