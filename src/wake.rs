use vstd::prelude::*;

verus! {

/// Where the read end of the wake pipe stands with the UI thread's wait.
#[derive(Clone, Copy, Debug, PartialEq, Eq, Structural)]
pub enum Registration {
    /// Open, not yet attached to the wait.
    Unregistered,
    /// Attached: the wait returns while a byte is pending.
    Registered,
    /// Detached; the read end is still open.
    Deregistered,
    /// Both ends are closed.
    Closed,
}

/// Failures of the wake pipe.
#[derive(Clone, Copy, Debug, PartialEq, Eq, Structural)]
pub enum WakeError {
    /// The platform could not allocate the pipe (descriptor limit); fatal at startup.
    ResourceExhausted,
    /// Registration refused: the read end is already attached to the wait.
    AlreadyRegistered,
    /// Registration refused: the read end is closed.
    InvalidHandle,
    /// A signal that did not reach the reader (it was torn down); tolerated.
    BrokenPipe,
}

/// What a wake delivery on the UI thread leads to.
#[derive(Clone, Copy, Debug, PartialEq, Eq, Structural)]
pub struct WakeDecision {
    /// A byte was drained: run the notification action now, on this thread.
    pub notify: bool,
    /// Whether the read end stays attached to the wait.
    pub keep_listening: bool,
}

/// The pipe in mathematical terms: the bytes written and drained so far, and
/// how many the platform buffers at most.
pub ghost struct WakeModel {
    pub registration: Registration,
    pub written: nat,
    pub drained: nat,
    pub capacity: nat,
}

impl WakeModel {
    pub open spec fn pending(self) -> int {
        self.written - self.drained
    }

    /// Nothing is drained that was not written, and no more is pending than
    /// the platform buffers.
    pub open spec fn consistent(self) -> bool {
        &&& self.drained <= self.written
        &&& self.pending() <= self.capacity
        &&& self.capacity > 0
    }

    /// The UI thread's wait would return: the read end is attached and a byte waits.
    pub open spec fn wake_due(self) -> bool {
        self.registration == Registration::Registered && self.pending() > 0
    }
}

pub open spec fn created_model(capacity: nat) -> WakeModel {
    WakeModel { registration: Registration::Unregistered, written: 0, drained: 0, capacity }
}

pub open spec fn register_result(m: WakeModel) -> Result<(), WakeError> {
    match m.registration {
        Registration::Registered => Err(WakeError::AlreadyRegistered),
        Registration::Closed => Err(WakeError::InvalidHandle),
        _ => Ok(()),
    }
}

pub open spec fn after_register(m: WakeModel) -> WakeModel {
    if register_result(m) is Ok {
        WakeModel { registration: Registration::Registered, ..m }
    } else {
        m
    }
}

pub open spec fn after_deregister(m: WakeModel) -> WakeModel {
    if m.registration == Registration::Registered {
        WakeModel { registration: Registration::Deregistered, ..m }
    } else {
        m
    }
}

pub open spec fn after_close(m: WakeModel) -> WakeModel {
    WakeModel { registration: Registration::Closed, ..m }
}

/// A write of one byte reached the pipe.
pub open spec fn signal_delivered(m: WakeModel, bytes_written: int) -> bool {
    m.registration != Registration::Closed && bytes_written == 1
}

pub open spec fn signal_result(m: WakeModel, bytes_written: int) -> Result<(), WakeError> {
    if signal_delivered(m, bytes_written) {
        Ok(())
    } else {
        Err(WakeError::BrokenPipe)
    }
}

/// A delivered byte is counted while the buffer has room for it (with the
/// buffer full the platform refuses the write, so a byte beyond it was never
/// in this pipe).
pub open spec fn after_signal(m: WakeModel, bytes_written: int) -> WakeModel {
    if signal_delivered(m, bytes_written) && m.pending() < m.capacity {
        WakeModel { written: m.written + 1, ..m }
    } else {
        m
    }
}

pub open spec fn wake_decision(m: WakeModel, bytes_read: int) -> WakeDecision {
    if m.registration != Registration::Registered {
        WakeDecision { notify: false, keep_listening: false }
    } else if bytes_read > 0 {
        WakeDecision { notify: true, keep_listening: true }
    } else {
        WakeDecision { notify: false, keep_listening: false }
    }
}

/// A delivery on an attached read end drains the one byte it read; a failed or
/// empty read (the writer is gone) detaches the read end. A delivery on a read
/// end that is not attached changes nothing.
pub open spec fn after_wake(m: WakeModel, bytes_read: int) -> WakeModel {
    if m.registration != Registration::Registered {
        m
    } else if bytes_read > 0 {
        if m.pending() > 0 {
            WakeModel { drained: m.drained + 1, ..m }
        } else {
            m
        }
    } else {
        WakeModel { registration: Registration::Deregistered, ..m }
    }
}

/// The pipe after `n` one-byte signals that got through.
pub open spec fn after_signals(m: WakeModel, n: nat) -> WakeModel
    decreases n,
{
    if n == 0 {
        m
    } else {
        after_signal(after_signals(m, (n - 1) as nat), 1)
    }
}

/// The pipe after `k` wake deliveries that each read one byte.
pub open spec fn after_deliveries(m: WakeModel, k: nat) -> WakeModel
    decreases k,
{
    if k == 0 {
        m
    } else {
        after_wake(after_deliveries(m, (k - 1) as nat), 1)
    }
}

/// The pipe after deliveries whose reads returned `reads`, in order.
pub open spec fn after_reads(m: WakeModel, reads: Seq<int>) -> WakeModel
    decreases reads.len(),
{
    if reads.len() == 0 {
        m
    } else {
        after_wake(after_reads(m, reads.drop_last()), reads.last())
    }
}

pub open spec fn min_nat(a: nat, b: nat) -> nat {
    if a <= b {
        a
    } else {
        b
    }
}

/// Signals that the buffer has room for are all counted.
pub proof fn lemma_signals_counted(m: WakeModel, n: nat)
    requires
        m.consistent(),
        m.registration != Registration::Closed,
        m.pending() + n <= m.capacity,
    ensures
        after_signals(m, n) == (WakeModel { written: m.written + n, ..m }),
    decreases n,
{
    if n > 0 {
        lemma_signals_counted(m, (n - 1) as nat);
    }
}

/// Each delivery on an attached read end drains one pending byte, and never
/// one that was not written.
pub proof fn lemma_deliveries_drain(m: WakeModel, k: nat)
    requires
        m.consistent(),
        m.registration == Registration::Registered,
    ensures
        after_deliveries(m, k) == (WakeModel {
            drained: m.drained + min_nat(k, m.pending() as nat),
            ..m
        }),
        after_deliveries(m, k).consistent(),
        wake_decision(after_deliveries(m, k), 1).notify,
    decreases k,
{
    if k > 0 {
        lemma_deliveries_drain(m, (k - 1) as nat);
    }
}

/// No signal is lost or duplicated. Take an attached pipe with nothing
/// pending, the UI thread idle in its wait, and write `n` signals (no more
/// than the buffer holds). Then a wake is due, so the wait returns and the
/// notification runs at least once. Over any number of deliveries, the bytes
/// drained never exceed the bytes written, and the backlog never exceeds the
/// buffer. After `n` deliveries nothing is pending and the wait is idle
/// again.
pub proof fn lemma_signals_are_serviced(m: WakeModel, n: nat, k: nat)
    requires
        m.consistent(),
        m.registration == Registration::Registered,
        m.pending() == 0,
        1 <= n <= m.capacity,
    ensures
        after_signals(m, n).written == m.written + n,
        after_signals(m, n).wake_due(),
        wake_decision(after_signals(m, n), 1).notify,
        after_deliveries(after_signals(m, n), k).drained <= after_deliveries(
            after_signals(m, n),
            k,
        ).written,
        after_deliveries(after_signals(m, n), k).written == m.written + n,
        after_deliveries(after_signals(m, n), k).pending() <= m.capacity,
        k < n ==> after_deliveries(after_signals(m, n), k).wake_due(),
        k >= n ==> after_deliveries(after_signals(m, n), k).pending() == 0,
        k >= n ==> !after_deliveries(after_signals(m, n), k).wake_due(),
{
    lemma_signals_counted(m, n);
    lemma_deliveries_drain(after_signals(m, n), k);
}

/// Deregistering twice is the same as once, and once deregistered the read
/// end receives no further wakes: any delivery, whatever its read returned,
/// notifies nothing and changes nothing.
pub proof fn lemma_deregister_idempotent(m: WakeModel, reads: Seq<int>)
    ensures
        after_deregister(m).registration != Registration::Registered,
        after_deregister(after_deregister(m)) == after_deregister(m),
        forall|i: int|
            0 <= i < reads.len() ==> wake_decision(
                #[trigger] after_reads(after_deregister(m), reads.take(i)),
                reads[i],
            ) == (WakeDecision { notify: false, keep_listening: false }),
        after_reads(after_deregister(m), reads) == after_deregister(m),
{
    let d = after_deregister(m);
    assert forall|i: int| 0 <= i <= reads.len() implies after_reads(d, #[trigger] reads.take(i))
        == d by {
        lemma_reads_on_detached(d, reads.take(i));
    }
    assert(reads.take(reads.len() as int) =~= reads);
}

proof fn lemma_reads_on_detached(d: WakeModel, reads: Seq<int>)
    requires
        d.registration != Registration::Registered,
    ensures
        after_reads(d, reads) == d,
    decreases reads.len(),
{
    if reads.len() > 0 {
        lemma_reads_on_detached(d, reads.drop_last());
    }
}

/// Bookkeeping for the pipe that wakes the UI thread.
///
/// Each signal is one byte. The read end is level-triggered: the wait returns
/// while a byte is pending, and each delivery drains exactly one byte, so
/// several signals written before the UI thread runs are all serviced, one
/// delivery each, and none is dropped. Deliveries may still coalesce at the
/// platform's wait: the guarantee is at least one servicing per batch of
/// signals written while the UI thread is idle, not one prompt wake per byte.
pub struct WakePipe {
    registration: Registration,
    pending: u64,
    capacity: u64,
    written: Ghost<nat>,
    drained: Ghost<nat>,
}

impl View for WakePipe {
    type V = WakeModel;

    closed spec fn view(&self) -> WakeModel {
        WakeModel {
            registration: self.registration,
            written: self.written@,
            drained: self.drained@,
            capacity: self.capacity as nat,
        }
    }
}

impl WakePipe {
    pub closed spec fn wf(&self) -> bool {
        &&& self@.consistent()
        &&& self.pending == self@.pending()
    }

    /// A well-formed pipe has a consistent model.
    pub proof fn lemma_wf_consistent(&self)
        requires
            self.wf(),
        ensures
            self@.consistent(),
    {
    }

    /// Takes the status of the platform's pipe creation (zero on success) and
    /// the number of bytes its buffer holds.
    pub fn create(status: i32, capacity: u64) -> (r: Result<WakePipe, WakeError>)
        requires
            capacity > 0,
        ensures
            status == 0 <==> r is Ok,
            r matches Ok(p) ==> p.wf() && p@ == created_model(capacity as nat),
            r matches Err(e) ==> e == WakeError::ResourceExhausted,
    {
        if status == 0 {
            Ok(
                WakePipe {
                    registration: Registration::Unregistered,
                    pending: 0,
                    capacity,
                    written: Ghost(0),
                    drained: Ghost(0),
                },
            )
        } else {
            Err(WakeError::ResourceExhausted)
        }
    }

    pub fn registration(&self) -> (r: Registration)
        ensures
            r == self@.registration,
    {
        self.registration
    }

    /// Bytes written and not yet drained.
    pub fn pending(&self) -> (r: u64)
        requires
            self.wf(),
        ensures
            r == self@.pending(),
    {
        self.pending
    }

    pub fn capacity(&self) -> (r: u64)
        ensures
            r == self@.capacity,
    {
        self.capacity
    }

    /// Attaches the read end to the UI thread's wait.
    pub fn register(&mut self) -> (r: Result<(), WakeError>)
        requires
            old(self).wf(),
        ensures
            final(self).wf(),
            r == register_result(old(self)@),
            final(self)@ == after_register(old(self)@),
    {
        match self.registration {
            Registration::Registered => Err(WakeError::AlreadyRegistered),
            Registration::Closed => Err(WakeError::InvalidHandle),
            _ => {
                self.registration = Registration::Registered;
                Ok(())
            },
        }
    }

    /// Detaches the read end; returns whether it was attached. A second call
    /// finds nothing to detach and changes nothing.
    pub fn deregister(&mut self) -> (r: bool)
        requires
            old(self).wf(),
        ensures
            final(self).wf(),
            r == (old(self)@.registration == Registration::Registered),
            final(self)@ == after_deregister(old(self)@),
    {
        if self.registration == Registration::Registered {
            self.registration = Registration::Deregistered;
            true
        } else {
            false
        }
    }

    /// Shutdown: detaches and closes both ends.
    pub fn close(&mut self)
        requires
            old(self).wf(),
        ensures
            final(self).wf(),
            final(self)@ == after_close(old(self)@),
    {
        self.registration = Registration::Closed;
    }

    /// Records the outcome of writing one signal byte (`bytes_written` is what
    /// the write returned). A signal that did not get through is reported as
    /// `BrokenPipe` for the caller to log and ignore.
    pub fn signal(&mut self, bytes_written: isize) -> (r: Result<(), WakeError>)
        requires
            old(self).wf(),
        ensures
            final(self).wf(),
            r == signal_result(old(self)@, bytes_written as int),
            final(self)@ == after_signal(old(self)@, bytes_written as int),
    {
        if self.registration != Registration::Closed && bytes_written == 1 {
            if self.pending < self.capacity {
                self.pending = self.pending + 1;
                self.written = Ghost(self.written@ + 1);
            }
            Ok(())
        } else {
            Err(WakeError::BrokenPipe)
        }
    }

    /// A wake delivery on the UI thread, after it read one byte from the read
    /// end (`bytes_read` is what the read returned).
    pub fn on_wake(&mut self, bytes_read: isize) -> (r: WakeDecision)
        requires
            old(self).wf(),
        ensures
            final(self).wf(),
            r == wake_decision(old(self)@, bytes_read as int),
            final(self)@ == after_wake(old(self)@, bytes_read as int),
    {
        if self.registration != Registration::Registered {
            WakeDecision { notify: false, keep_listening: false }
        } else if bytes_read > 0 {
            if self.pending > 0 {
                self.pending = self.pending - 1;
                self.drained = Ghost(self.drained@ + 1);
            }
            WakeDecision { notify: true, keep_listening: true }
        } else {
            self.registration = Registration::Deregistered;
            WakeDecision { notify: false, keep_listening: false }
        }
    }
}

} // verus!
