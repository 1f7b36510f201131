use vstd::prelude::*;

verus! {

/// How waiting on a dispatched speech process ended.
#[derive(Clone, Copy, Debug, PartialEq, Eq, Structural)]
pub enum ExitOutcome {
    /// The process exited with a success status.
    Success,
    /// The process ran and exited with a non-success status.
    Failure,
    /// The outcome could not be observed: waiting on the process failed.
    WaitError,
}

/// A user-visible, non-fatal report about one dispatched process.
#[derive(Clone, Copy, Debug, PartialEq, Eq, Structural)]
pub enum Notice {
    /// The speech command ran and signalled failure.
    CommandFailed,
    /// The outcome of the speech command could not be observed.
    UnexpectedError,
}

/// The report owed for one outcome: none on success.
pub open spec fn notice_of(outcome: ExitOutcome) -> Option<Notice> {
    match outcome {
        ExitOutcome::Success => None,
        ExitOutcome::Failure => Some(Notice::CommandFailed),
        ExitOutcome::WaitError => Some(Notice::UnexpectedError),
    }
}

/// The report owed for one outcome.
pub fn notice_for(outcome: ExitOutcome) -> (r: Option<Notice>)
    ensures
        r == notice_of(outcome),
{
    match outcome {
        ExitOutcome::Success => None,
        ExitOutcome::Failure => Some(Notice::CommandFailed),
        ExitOutcome::WaitError => Some(Notice::UnexpectedError),
    }
}

/// What the consumer is to do next.
pub enum Step<T> {
    /// Wait on this handle, then report through `finish`.
    Serve(T),
    /// Nothing to do now: block until a producer offers or closes.
    Idle,
    /// The producers are gone and nothing is pending: end the loop.
    Stop,
}

/// The abstract state of a handoff queue.
pub ghost struct QueueView<T> {
    /// The most handles that may be in flight at once.
    pub capacity: nat,
    /// Handles sent and not yet taken by the consumer, oldest first.
    pub pending: Seq<T>,
    /// Whether the consumer is waiting on a handle it has taken.
    pub waiting: bool,
    /// Whether the producers have closed their side.
    pub closed: bool,
}

impl<T> QueueView<T> {
    /// An empty, open queue.
    pub open spec fn fresh(capacity: nat) -> QueueView<T> {
        QueueView { capacity, pending: Seq::empty(), waiting: false, closed: false }
    }

    /// Handles sent and not yet fully waited on.
    pub open spec fn in_flight(self) -> nat {
        self.pending.len() + if self.waiting {
            1nat
        } else {
            0nat
        }
    }

    /// The queue never holds more in flight than its capacity.
    pub open spec fn wf(self) -> bool {
        self.in_flight() <= self.capacity
    }

    /// Whether an offered handle is taken in now, rather than the producer
    /// having to wait.
    pub open spec fn accepts(self) -> bool {
        !self.closed && self.in_flight() < self.capacity
    }

    /// The state after a producer offers `item`.
    pub open spec fn offered(self, item: T) -> QueueView<T> {
        if self.accepts() {
            QueueView {
                capacity: self.capacity,
                pending: self.pending.push(item),
                waiting: self.waiting,
                closed: self.closed,
            }
        } else {
            self
        }
    }

    /// The consumer's next step and the state after it.
    pub open spec fn taken(self) -> (Step<T>, QueueView<T>) {
        if !self.waiting && self.pending.len() > 0 {
            (
                Step::Serve(self.pending[0]),
                QueueView {
                    capacity: self.capacity,
                    pending: self.pending.remove(0),
                    waiting: true,
                    closed: self.closed,
                },
            )
        } else if !self.waiting && self.closed {
            (Step::Stop, self)
        } else {
            (Step::Idle, self)
        }
    }

    /// The state after the consumer has finished waiting on its handle.
    pub open spec fn finished(self) -> QueueView<T> {
        QueueView {
            capacity: self.capacity,
            pending: self.pending,
            waiting: false,
            closed: self.closed,
        }
    }

    /// The state after the producers close their side.
    pub open spec fn shut(self) -> QueueView<T> {
        QueueView {
            capacity: self.capacity,
            pending: self.pending,
            waiting: self.waiting,
            closed: true,
        }
    }
}

/// The bounded handoff from the dispatching side to the single consumer that
/// waits on each started process: handles leave in the order they came, and
/// no more than `capacity` are ever in flight (queued or being waited on).
pub struct HandoffQueue<T> {
    capacity: usize,
    pending: Vec<T>,
    waiting: bool,
    closed: bool,
}

impl<T> View for HandoffQueue<T> {
    type V = QueueView<T>;

    closed spec fn view(&self) -> QueueView<T> {
        QueueView {
            capacity: self.capacity as nat,
            pending: self.pending@,
            waiting: self.waiting,
            closed: self.closed,
        }
    }
}

impl<T> HandoffQueue<T> {
    /// An empty, open queue that admits `capacity` handles in flight.
    pub fn new(capacity: usize) -> (r: HandoffQueue<T>)
        ensures
            r@ == QueueView::<T>::fresh(capacity as nat),
            r@.wf(),
    {
        HandoffQueue { capacity, pending: Vec::new(), waiting: false, closed: false }
    }

    /// Offers a handle. It is taken in when the queue is open and has room;
    /// otherwise it comes back, and the producer is to wait for the consumer.
    pub fn offer(&mut self, item: T) -> (r: Result<(), T>)
        requires
            old(self)@.wf(),
        ensures
            r is Ok <==> old(self)@.accepts(),
            final(self)@ == old(self)@.offered(item),
            r matches Err(back) ==> back == item,
            final(self)@.wf(),
    {
        let busy: usize = if self.waiting {
            1
        } else {
            0
        };
        if !self.closed && self.pending.len() + busy < self.capacity {
            self.pending.push(item);
            Ok(())
        } else {
            Err(item)
        }
    }

    /// The consumer's next step: the oldest pending handle when it is free,
    /// `Stop` once the producers are gone and nothing is left.
    pub fn take(&mut self) -> (r: Step<T>)
        requires
            old(self)@.wf(),
        ensures
            (r, final(self)@) == old(self)@.taken(),
            final(self)@.wf(),
    {
        if !self.waiting && self.pending.len() > 0 {
            let item = self.pending.remove(0);
            self.waiting = true;
            Step::Serve(item)
        } else if !self.waiting && self.closed {
            Step::Stop
        } else {
            Step::Idle
        }
    }

    /// Records that the consumer has finished waiting on its handle, which
    /// frees its slot, and returns the report owed for the outcome.
    pub fn finish(&mut self, outcome: ExitOutcome) -> (r: Option<Notice>)
        requires
            old(self)@.wf(),
        ensures
            r == notice_of(outcome),
            final(self)@ == old(self)@.finished(),
            final(self)@.wf(),
    {
        self.waiting = false;
        notice_for(outcome)
    }

    /// Closes the producers' side: nothing more is taken in, and the
    /// consumer stops once the pending handles are served.
    pub fn close(&mut self)
        requires
            old(self)@.wf(),
        ensures
            final(self)@ == old(self)@.shut(),
            final(self)@.wf(),
    {
        self.closed = true;
    }

    /// Handles sent and not yet fully waited on.
    pub fn in_flight(&self) -> (r: usize)
        requires
            self@.wf(),
        ensures
            r == self@.in_flight(),
    {
        self.pending.len() + if self.waiting {
            1
        } else {
            0
        }
    }
}

/// Every transition keeps the number in flight within the capacity.
pub proof fn lemma_transitions_keep_bound<T>(v: QueueView<T>, item: T)
    requires
        v.wf(),
    ensures
        v.offered(item).wf(),
        v.taken().1.wf(),
        v.finished().wf(),
        v.shut().wf(),
{
}

/// Once as many handles are in flight as the capacity admits, a further
/// offer is refused and changes nothing, and the consumer taking its next
/// handle frees no slot; finishing the wait on a handle frees one.
pub proof fn lemma_full_queue_blocks_until_finish<T>(v: QueueView<T>, item: T)
    requires
        v.wf(),
        v.in_flight() == v.capacity,
    ensures
        !v.accepts(),
        v.offered(item) == v,
        !v.taken().1.accepts(),
        v.taken().1.waiting && !v.closed ==> v.taken().1.finished().accepts(),
{
}

/// With room for two, a third dispatch while the first two are in flight
/// must wait, whether or not the consumer has already taken the first; it is
/// taken in once the consumer has finished waiting on the first, which was
/// the one served.
pub proof fn lemma_third_dispatch_waits_for_first<T>(a: T, b: T, c: T)
    ensures
        ({
            let v1 = QueueView::<T>::fresh(2).offered(a);
            let v2 = v1.offered(b);
            let v3 = v2.taken();
            &&& v1.pending == seq![a]
            &&& v2.pending == seq![a, b]
            &&& !v2.accepts()
            &&& v2.offered(c) == v2
            &&& v3.0 == Step::Serve(a)
            &&& !v3.1.accepts()
            &&& v3.1.finished().accepts()
            &&& v3.1.finished().offered(c).pending == seq![b, c]
        }),
        ({
            let u1 = QueueView::<T>::fresh(2).offered(a).taken();
            let u2 = u1.1.offered(b);
            &&& u1.0 == Step::Serve(a)
            &&& u2.pending == seq![b]
            &&& !u2.accepts()
            &&& u2.taken().0 is Idle
            &&& u2.finished().accepts()
        }),
{
    let v2 = QueueView::<T>::fresh(2).offered(a).offered(b);
    assert(v2.pending =~= seq![a, b]);
    assert(v2.pending.remove(0) =~= seq![b]);
    assert(v2.taken().1.pending.push(c) =~= seq![b, c]);
    let u1 = QueueView::<T>::fresh(2).offered(a).taken();
    assert(u1.1.pending =~= Seq::<T>::empty());
    assert(u1.1.offered(b).pending =~= seq![b]);
}

/// A handle whose process exits with a non-success status is reported by
/// exactly one "command failed" notice, and the consumer goes on to serve the
/// next pending handle.
pub proof fn lemma_failure_reported_and_serving_continues<T>(v: QueueView<T>)
    requires
        v.wf(),
        v.waiting,
    ensures
        notice_of(ExitOutcome::Failure) == Some(Notice::CommandFailed),
        !v.finished().waiting,
        v.finished().pending == v.pending,
        v.pending.len() > 0 ==> v.finished().taken().0 == Step::Serve(v.pending[0]),
        v.pending.len() == 0 && !v.closed ==> v.finished().accepts(),
{
}

/// Handles are served in the order in which they were taken in.
pub proof fn lemma_served_in_order<T>(v: QueueView<T>, a: T, b: T)
    requires
        v.wf(),
        v.pending.len() == 0,
        !v.waiting,
        v.accepts(),
        v.offered(a).accepts(),
    ensures
        v.offered(a).offered(b).taken().0 == Step::Serve(a),
        v.offered(a).offered(b).taken().1.finished().taken().0 == Step::Serve(b),
{
    assert(v.offered(a).offered(b).pending =~= seq![a, b]);
    assert(v.offered(a).offered(b).pending.remove(0) =~= seq![b]);
}

} // verus!
