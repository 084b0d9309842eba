use vstd::prelude::*;
use crate::buffer::{DataBuffer, DataType, SourceError, zeroes};

verus! {

/// Where a target stands in its run.
#[derive(Clone, Debug, PartialEq, Eq)]
pub enum Status {
    /// Not opened yet.
    Pending,
    /// Open, and accepting writes.
    Running,
    /// Could not be opened or written; the reason.
    Failed(String),
    /// A write accepted no bytes: the target is full.
    Complete,
}

/// What the outside world reports back to a target's run.
#[derive(Debug)]
pub enum Event {
    /// The outcome of opening the target for writing.
    Opened(Result<(), String>),
    /// The outcome of one write: the number of bytes taken, or the error.
    Wrote(Result<usize, String>),
}

/// The per-target record: the bytes written so far and the status.
#[derive(Clone, Debug, PartialEq, Eq)]
pub struct Progress {
    pub bytes_written: usize,
    pub status: Status,
}

/// Failed and Complete end a run; nothing leaves them.
pub open spec fn is_terminal(s: Status) -> bool {
    s is Failed || s is Complete
}

/// `a + n`, held at `usize::MAX` where it would not fit.
pub open spec fn saturating_sum(a: usize, n: usize) -> usize {
    if a + n > usize::MAX {
        usize::MAX
    } else {
        (a + n) as usize
    }
}

/// The record after one event. Opening moves a pending target to Running or
/// Failed; a write moves a running target on by the bytes it took, to
/// Complete when it took none, or to Failed on an error. Any other event
/// leaves the record as it was.
pub open spec fn step(p: Progress, e: Event) -> Progress {
    match e {
        Event::Opened(r) => if p.status is Pending {
            match r {
                Ok(_) => Progress { status: Status::Running, ..p },
                Err(msg) => Progress { status: Status::Failed(msg), ..p },
            }
        } else {
            p
        },
        Event::Wrote(r) => if p.status is Running {
            match r {
                Ok(n) => if n == 0 {
                    Progress { status: Status::Complete, ..p }
                } else {
                    Progress { bytes_written: saturating_sum(p.bytes_written, n), ..p }
                },
                Err(msg) => Progress { status: Status::Failed(msg), ..p },
            }
        } else {
            p
        },
    }
}

/// The record after a sequence of events, in order.
pub open spec fn run(p: Progress, events: Seq<Event>) -> Progress
    decreases events.len(),
{
    if events.len() == 0 {
        p
    } else {
        run(step(p, events[0]), events.drop_first())
    }
}

/// The bytes a sequence of writes takes from a running target before it stops:
/// the sum of the counts up to the first zero count or error.
pub open spec fn accepted(writes: Seq<Result<usize, String>>) -> nat
    decreases writes.len(),
{
    if writes.len() == 0 {
        0
    } else {
        match writes[0] {
            Ok(n) => if n == 0 {
                0
            } else {
                n as nat + accepted(writes.drop_first())
            },
            Err(_) => 0,
        }
    }
}

/// Whether a write took at least one byte.
pub open spec fn took_bytes(w: Result<usize, String>) -> bool {
    w matches Ok(n) && n > 0
}

/// Each write outcome as the event that reports it.
pub open spec fn as_events(writes: Seq<Result<usize, String>>) -> Seq<Event> {
    writes.map_values(|w: Result<usize, String>| Event::Wrote(w))
}

/// A target that has reached Failed or Complete stays exactly as it is,
/// whatever is reported to it afterwards.
pub proof fn lemma_terminal_is_final(p: Progress, events: Seq<Event>)
    requires
        is_terminal(p.status),
    ensures
        run(p, events) == p,
    decreases events.len(),
{
    if events.len() > 0 {
        lemma_terminal_is_final(step(p, events[0]), events.drop_first());
    }
}

/// The count of bytes written never goes down over a run.
pub proof fn lemma_bytes_never_decrease(p: Progress, events: Seq<Event>)
    ensures
        run(p, events).bytes_written >= p.bytes_written,
    decreases events.len(),
{
    if events.len() > 0 {
        lemma_bytes_never_decrease(step(p, events[0]), events.drop_first());
    }
}

/// Each run visits the states in the order Pending, Running, then one of
/// Failed or Complete: a run never returns to Pending, and never reaches
/// Running again once it has ended.
pub proof fn lemma_no_way_back(p: Progress, events: Seq<Event>)
    ensures
        !(p.status is Pending) ==> !(run(p, events).status is Pending),
        is_terminal(p.status) ==> is_terminal(run(p, events).status),
    decreases events.len(),
{
    if events.len() > 0 {
        lemma_no_way_back(step(p, events[0]), events.drop_first());
    }
}

/// Writes to a running target add up: while the count fits, the total after a
/// sequence of writes is the total before plus the bytes taken up to the first
/// zero count or error. The target then stands Complete after a zero count,
/// Failed after an error, and Running if neither came.
pub proof fn lemma_writes_add_up(p: Progress, writes: Seq<Result<usize, String>>)
    requires
        p.status is Running,
        p.bytes_written + accepted(writes) <= usize::MAX,
    ensures
        run(p, as_events(writes)).bytes_written == p.bytes_written + accepted(writes),
        (exists|i: int| 0 <= i < writes.len() && writes[i] == Ok::<usize, String>(0usize)
            && forall|j: int| 0 <= j < i ==> took_bytes(#[trigger] writes[j]))
            ==> run(p, as_events(writes)).status is Complete,
        (exists|i: int| 0 <= i < writes.len() && writes[i] is Err
            && forall|j: int| 0 <= j < i ==> took_bytes(#[trigger] writes[j]))
            ==> run(p, as_events(writes)).status is Failed,
        (forall|j: int| 0 <= j < writes.len() ==> took_bytes(#[trigger] writes[j]))
            ==> run(p, as_events(writes)).status is Running,
    decreases writes.len(),
{
    if writes.len() > 0 {
        let ev = as_events(writes);
        assert(ev[0] == Event::Wrote(writes[0]));
        assert(ev.drop_first() =~= as_events(writes.drop_first()));
        let q = step(p, ev[0]);
        match writes[0] {
            Ok(n) => {
                if n == 0 {
                    lemma_terminal_is_final(q, ev.drop_first());
                } else {
                    lemma_writes_add_up(q, writes.drop_first());
                    let rest = writes.drop_first();
                    if exists|i: int| 0 <= i < writes.len() && writes[i] == Ok::<usize, String>(0usize)
                        && forall|j: int| 0 <= j < i ==> took_bytes(#[trigger] writes[j]) {
                        let i = choose|i: int| 0 <= i < writes.len() && writes[i] == Ok::<usize, String>(0usize)
                            && forall|j: int| 0 <= j < i ==> took_bytes(#[trigger] writes[j]);
                        assert(i > 0);
                        assert(rest[i - 1] == Ok::<usize, String>(0usize));
                        assert forall|j: int| 0 <= j < i - 1 implies took_bytes(#[trigger] rest[j]) by {
                            assert(rest[j] == writes[j + 1]);
                        }
                    }
                    if exists|i: int| 0 <= i < writes.len() && writes[i] is Err
                        && forall|j: int| 0 <= j < i ==> took_bytes(#[trigger] writes[j]) {
                        let i = choose|i: int| 0 <= i < writes.len() && writes[i] is Err
                            && forall|j: int| 0 <= j < i ==> took_bytes(#[trigger] writes[j]);
                        assert(i > 0);
                        assert(rest[i - 1] is Err);
                        assert forall|j: int| 0 <= j < i - 1 implies took_bytes(#[trigger] rest[j]) by {
                            assert(rest[j] == writes[j + 1]);
                        }
                    }
                    if forall|j: int| 0 <= j < writes.len() ==> took_bytes(#[trigger] writes[j]) {
                        assert forall|j: int| 0 <= j < rest.len() implies took_bytes(#[trigger] rest[j]) by {
                            assert(rest[j] == writes[j + 1]);
                        }
                    }
                }
            },
            Err(_) => {
                lemma_terminal_is_final(q, ev.drop_first());
            },
        }
    }
}

impl Progress {
    /// A fresh record: pending, nothing written.
    pub fn new() -> (r: Progress)
        ensures
            r == (Progress { bytes_written: 0, status: Status::Pending }),
    {
        Progress { bytes_written: 0, status: Status::Pending }
    }

    /// Applies one event to the record.
    pub fn apply(&mut self, e: Event)
        ensures
            *final(self) == step(*old(self), e),
    {
        match e {
            Event::Opened(r) => {
                if let Status::Pending = self.status {
                    match r {
                        Ok(_) => {
                            self.status = Status::Running;
                        },
                        Err(msg) => {
                            self.status = Status::Failed(msg);
                        },
                    }
                }
            },
            Event::Wrote(r) => {
                if let Status::Running = self.status {
                    match r {
                        Ok(n) => {
                            if n == 0 {
                                self.status = Status::Complete;
                            } else if self.bytes_written > usize::MAX - n {
                                self.bytes_written = usize::MAX;
                            } else {
                                self.bytes_written = self.bytes_written + n;
                            }
                        },
                        Err(msg) => {
                            self.status = Status::Failed(msg);
                        },
                    }
                }
            },
        }
    }

    /// Whether the run of this target has ended.
    pub fn is_terminal(&self) -> (r: bool)
        ensures
            r == is_terminal(self.status),
    {
        match self.status {
            Status::Failed(_) | Status::Complete => true,
            _ => false,
        }
    }

    /// Whether the target is open and accepting writes.
    pub fn is_running(&self) -> (r: bool)
        ensures
            r == self.status is Running,
    {
        match self.status {
            Status::Running => true,
            _ => false,
        }
    }
}

/// The message a target fails with when its random generator cannot be seeded.
pub fn generator_failure_message() -> (r: String)
    ensures
        r@ == "random generator unavailable"@,
{
    proof {
        reveal_strlit("random generator unavailable");
    }
    String::from_str("random generator unavailable")
}

/// One target's run: its own byte source and its progress record. It makes
/// no outside call; the caller opens and writes, and reports each outcome.
pub struct Worker {
    buffer: Option<DataBuffer>,
    block_size: Ghost<nat>,
    policy: Ghost<DataType>,
    progress: Progress,
}

impl Worker {
    /// The target's progress record.
    pub closed spec fn record(&self) -> Progress {
        self.progress
    }

    /// The number of bytes each write hands out.
    pub closed spec fn block_size(&self) -> nat {
        self.block_size@
    }

    /// The fill policy of the worker's source.
    pub closed spec fn policy(&self) -> DataType {
        self.policy@
    }

    /// A worker that is not pending owns a well-formed buffer of the block size,
    /// unless its source failed before the target was opened.
    pub closed spec fn wf(&self) -> bool {
        &&& (self.buffer is None ==> is_terminal(self.progress.status))
        &&& (self.buffer matches Some(b) ==> {
            &&& b.wf()
            &&& b@.len() == self.block_size@
            &&& b.policy() == self.policy@
        })
    }

    /// Starts a worker from an already attempted byte source. A source that
    /// could not be made fails the target at once, before it is opened.
    pub fn from_source(
        data_type: DataType,
        block_size: usize,
        source: Result<DataBuffer, SourceError>,
    ) -> (r: Worker)
        requires
            source matches Ok(b) ==> {
                &&& b.wf()
                &&& b@.len() == block_size
                &&& b.policy() == data_type
            },
        ensures
            r.wf(),
            r.block_size() == block_size,
            r.policy() == data_type,
            source is Ok ==> r.record() == (Progress { bytes_written: 0, status: Status::Pending }),
            source is Err ==> r.record().bytes_written == 0,
            source is Err ==> (r.record().status matches Status::Failed(m)
                && m@ == "random generator unavailable"@),
    {
        let mut progress = Progress::new();
        let buffer = match source {
            Ok(b) => Some(b),
            Err(_) => {
                progress.status = Status::Failed(generator_failure_message());
                None
            },
        };
        Worker { buffer, block_size: Ghost(block_size as nat), policy: Ghost(data_type), progress }
    }

    /// Starts a worker for one target: its byte source is made (and, under the
    /// random policy, seeded) here, once.
    pub fn new(data_type: DataType, block_size: usize) -> (r: Worker)
        ensures
            r.wf(),
            r.block_size() == block_size,
            r.policy() == data_type,
            r.record().bytes_written == 0,
            data_type == DataType::Zeroes ==> r.record().status is Pending,
            r.record().status is Pending || (r.record().status matches Status::Failed(m)
                && m@ == "random generator unavailable"@),
    {
        let source = DataBuffer::new(data_type, block_size);
        Worker::from_source(data_type, block_size, source)
    }

    /// The target's progress record.
    pub fn progress(&self) -> (r: &Progress)
        ensures
            *r == self.record(),
    {
        &self.progress
    }

    /// Whether the target is open and accepting writes.
    pub fn is_running(&self) -> (r: bool)
        ensures
            r == self.record().status is Running,
    {
        self.progress.is_running()
    }

    /// Whether the run of this target has ended.
    pub fn is_terminal(&self) -> (r: bool)
        ensures
            r == is_terminal(self.record().status),
    {
        self.progress.is_terminal()
    }

    /// Reports the outcome of opening the target.
    pub fn opened(&mut self, r: Result<(), String>)
        requires
            old(self).wf(),
        ensures
            final(self).wf(),
            final(self).block_size() == old(self).block_size(),
            final(self).policy() == old(self).policy(),
            final(self).record() == step(old(self).record(), Event::Opened(r)),
    {
        self.progress.apply(Event::Opened(r));
    }

    /// Refills the worker's buffer and lends it out for the next write.
    pub fn next_bytes(&mut self) -> (r: &[u8])
        requires
            old(self).wf(),
            old(self).record().status is Running,
        ensures
            final(self).wf(),
            final(self).block_size() == old(self).block_size(),
            final(self).policy() == old(self).policy(),
            final(self).record() == old(self).record(),
            r@.len() == old(self).block_size(),
            old(self).policy() == DataType::Zeroes ==> r@ == zeroes(old(self).block_size()),
    {
        match &mut self.buffer {
            Some(b) => b.next_bytes(),
            None => {
                assert(false);
                &[]
            },
        }
    }

    /// Reports the outcome of one write of the lent buffer.
    pub fn wrote(&mut self, r: Result<usize, String>)
        requires
            old(self).wf(),
        ensures
            final(self).wf(),
            final(self).block_size() == old(self).block_size(),
            final(self).policy() == old(self).policy(),
            final(self).record() == step(old(self).record(), Event::Wrote(r)),
    {
        self.progress.apply(Event::Wrote(r));
    }
}

} // verus!
