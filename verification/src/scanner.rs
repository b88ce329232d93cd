//! The background scan worker: the state machine that turns the pages of one
//! cursor iteration into batched results.
//!
//! The worker never talks to the server itself. Whoever runs it pulls pages
//! from the cursor stream, reports each one with [`ScanWorker::step`], and
//! carries out the action that comes back.

use vstd::prelude::*;
use crate::error::Error;

verus! {

/// The server-side filter on the type of the keys a scan returns.
#[derive(Clone, Copy, Debug, PartialEq, Eq, Structural)]
pub enum ScanType {
    Sets,
    Strings,
    SortedSets,
    Lists,
    Hashes,
    Streams,
}

/// What one round trip of the cursor protocol brought back.
#[derive(Debug)]
pub struct ScanPage<T> {
    /// The batch of this round trip, in the order the server sent it.
    pub keys: Vec<T>,
    /// False exactly when the returned cursor signalled completion.
    pub has_more: bool,
}

/// A page as a mathematical value.
pub struct PageModel<T> {
    pub keys: Seq<T>,
    pub has_more: bool,
}

impl<T> View for ScanPage<T> {
    type V = PageModel<T>;

    open spec fn view(&self) -> PageModel<T> {
        PageModel { keys: self.keys@, has_more: self.has_more }
    }
}

/// What the worker is told.
#[derive(Debug)]
pub enum WorkerEvent<T> {
    /// The resume signal was found set, and has been cleared.
    Resume,
    /// The cursor stream yielded a page.
    Page(ScanPage<T>),
    /// The cursor stream yielded a transport or protocol error.
    Failed(String),
    /// The cursor stream is over and yields nothing more.
    Ended,
}

/// An event as a mathematical value.
pub enum EventModel<T> {
    Resume,
    Page(PageModel<T>),
    Failed(String),
    Ended,
}

impl<T> View for WorkerEvent<T> {
    type V = EventModel<T>;

    open spec fn view(&self) -> EventModel<T> {
        match self {
            WorkerEvent::Resume => EventModel::Resume,
            WorkerEvent::Page(p) => EventModel::Page(p@),
            WorkerEvent::Failed(m) => EventModel::Failed(*m),
            WorkerEvent::Ended => EventModel::Ended,
        }
    }
}

/// The snapshot one scan call hands back: the keys in cursor order, and
/// whether the cursor can yield more.
#[derive(Debug)]
pub struct RedisScannerResult<T> {
    keys: Vec<T>,
    can_continue: bool,
}

/// A snapshot as a mathematical value.
pub struct ResultModel<T> {
    pub keys: Seq<T>,
    pub can_continue: bool,
}

/// The snapshot sent when the stream had nothing left to pull: no keys, and
/// the continuation flag still raised.
pub open spec fn empty_result<T>() -> ResultModel<T> {
    ResultModel { keys: Seq::empty(), can_continue: true }
}

impl<T> View for RedisScannerResult<T> {
    type V = ResultModel<T>;

    closed spec fn view(&self) -> ResultModel<T> {
        ResultModel { keys: self.keys@, can_continue: self.can_continue }
    }
}

impl<T> RedisScannerResult<T> {
    /// A snapshot of the given keys.
    pub fn new(keys: Vec<T>, can_continue: bool) -> (res: Self)
        ensures
            res@ == (ResultModel { keys: keys@, can_continue }),
    {
        RedisScannerResult { keys, can_continue }
    }

    /// The keys, in the order the cursor yielded them.
    pub fn keys(&self) -> (keys: &Vec<T>)
        ensures
            keys@ == self@.keys,
    {
        &self.keys
    }

    /// Whether another call can bring more keys.
    pub fn can_continue(&self) -> (flag: bool)
        ensures
            flag == self@.can_continue,
    {
        self.can_continue
    }

    /// Gives the keys away.
    pub fn into_keys(self) -> (keys: Vec<T>)
        ensures
            keys@ == self@.keys,
    {
        self.keys
    }
}

impl<T> Default for RedisScannerResult<T> {
    fn default() -> (res: Self)
        ensures
            res@ == empty_result::<T>(),
    {
        RedisScannerResult { keys: Vec::new(), can_continue: true }
    }
}

/// What the runner of the worker has to do next.
#[derive(Debug)]
pub enum WorkerAction<T> {
    /// Wait until the resume signal is set, clear it, and report `Resume`.
    Park,
    /// Pull the next item from the cursor stream and report it.
    Pull,
    /// Advance the cursor by one step, then pull and report.
    AdvanceAndPull,
    /// Send `outcome` through the hand-off channel, advance the cursor by one
    /// step if `advance` is set, then park.
    Emit { outcome: Result<RedisScannerResult<T>, Error>, advance: bool },
}

/// An action as a mathematical value.
pub enum ActionModel<T> {
    Park,
    Pull,
    AdvanceAndPull,
    Emit { outcome: Result<ResultModel<T>, Error>, advance: bool },
}

impl<T> View for WorkerAction<T> {
    type V = ActionModel<T>;

    open spec fn view(&self) -> ActionModel<T> {
        match self {
            WorkerAction::Park => ActionModel::Park,
            WorkerAction::Pull => ActionModel::Pull,
            WorkerAction::AdvanceAndPull => ActionModel::AdvanceAndPull,
            WorkerAction::Emit { outcome, advance } => ActionModel::Emit {
                outcome: match outcome {
                    Ok(r) => Ok(r@),
                    Err(e) => Err(*e),
                },
                advance: *advance,
            },
        }
    }
}

/// The worker as a mathematical value.
pub struct WorkerModel<T> {
    /// The count at which a drain stops and emits.
    pub needed_count: u32,
    /// How many keys the worker has pulled since it was created.
    pub scanned_count: u32,
    /// Whether a drain is under way.
    pub draining: bool,
    /// The keys gathered by the drain under way.
    pub buffer: Seq<T>,
}

/// A worker that has pulled nothing yet and waits for its first signal.
pub open spec fn fresh_worker<T>(needed_count: u32) -> WorkerModel<T> {
    WorkerModel { needed_count, scanned_count: 0, draining: false, buffer: Seq::empty() }
}

/// `count` raised by `len` keys, held at the largest `u32`.
pub open spec fn count_after(count: u32, len: nat) -> u32 {
    if count + len > u32::MAX {
        u32::MAX
    } else {
        (count + len) as u32
    }
}

/// The worker's transition function.
///
/// Idle, a worker reacts to `Resume` alone: it starts a drain with an empty
/// buffer and asks for a page. Draining, each page is appended to the buffer
/// and counted. Once the count has reached the target or the page was the
/// cursor's last, the buffer is emitted with that page's continuation flag;
/// otherwise the worker asks for the next page. Either way the cursor is
/// advanced past the page. An error is emitted as it came. A stream that ends
/// under a drain yields the empty snapshot. After emitting the worker is idle
/// with an empty buffer. An event that does not belong to the current state
/// changes nothing and repeats the state's standing request.
pub open spec fn worker_step<T>(w: WorkerModel<T>, e: EventModel<T>) -> (
    WorkerModel<T>,
    ActionModel<T>,
) {
    let idle = WorkerModel { draining: false, buffer: Seq::empty(), ..w };
    if !w.draining {
        match e {
            EventModel::Resume => (
                WorkerModel { draining: true, buffer: Seq::empty(), ..w },
                ActionModel::Pull,
            ),
            _ => (w, ActionModel::Park),
        }
    } else {
        match e {
            EventModel::Resume => (w, ActionModel::Pull),
            EventModel::Page(p) => {
                let keys = w.buffer + p.keys;
                let count = count_after(w.scanned_count, p.keys.len());
                if count >= w.needed_count || !p.has_more {
                    (
                        WorkerModel { scanned_count: count, ..idle },
                        ActionModel::Emit {
                            outcome: Ok(ResultModel { keys, can_continue: p.has_more }),
                            advance: true,
                        },
                    )
                } else {
                    (
                        WorkerModel { scanned_count: count, buffer: keys, ..w },
                        ActionModel::AdvanceAndPull,
                    )
                }
            },
            EventModel::Failed(m) => (
                idle,
                ActionModel::Emit { outcome: Err(Error::RedisInternalError(m)), advance: false },
            ),
            EventModel::Ended => (
                idle,
                ActionModel::Emit { outcome: Ok(empty_result()), advance: false },
            ),
        }
    }
}

/// The worker of one scan session.
#[derive(Debug)]
pub struct ScanWorker<T> {
    needed_count: u32,
    scanned_count: u32,
    draining: bool,
    buffer: Vec<T>,
}

impl<T> View for ScanWorker<T> {
    type V = WorkerModel<T>;

    closed spec fn view(&self) -> WorkerModel<T> {
        WorkerModel {
            needed_count: self.needed_count,
            scanned_count: self.scanned_count,
            draining: self.draining,
            buffer: self.buffer@,
        }
    }
}

impl<T> ScanWorker<T> {
    /// A worker for a new session whose drains stop at `needed_count` keys.
    pub fn new(needed_count: u32) -> (w: Self)
        ensures
            w@ == fresh_worker::<T>(needed_count),
    {
        ScanWorker { needed_count, scanned_count: 0, draining: false, buffer: Vec::new() }
    }

    /// How many keys this worker has pulled so far.
    pub fn scanned_count(&self) -> (count: u32)
        ensures
            count == self@.scanned_count,
    {
        self.scanned_count
    }

    /// The count at which a drain stops.
    pub fn needed_count(&self) -> (count: u32)
        ensures
            count == self@.needed_count,
    {
        self.needed_count
    }

    /// Whether a drain is under way.
    pub fn is_draining(&self) -> (flag: bool)
        ensures
            flag == self@.draining,
    {
        self.draining
    }

    /// Takes one event and says what to do next.
    pub fn step(&mut self, event: WorkerEvent<T>) -> (action: WorkerAction<T>)
        ensures
            (final(self)@, action@) == worker_step(old(self)@, event@),
    {
        if !self.draining {
            match event {
                WorkerEvent::Resume => {
                    self.draining = true;
                    self.buffer = Vec::new();
                    WorkerAction::Pull
                },
                _ => WorkerAction::Park,
            }
        } else {
            match event {
                WorkerEvent::Resume => WorkerAction::Pull,
                WorkerEvent::Page(page) => {
                    let ScanPage { keys: mut page_keys, has_more } = page;
                    let len = page_keys.len();
                    self.buffer.append(&mut page_keys);
                    let room: u32 = u32::MAX - self.scanned_count;
                    if len > room as usize {
                        self.scanned_count = u32::MAX;
                    } else {
                        self.scanned_count = self.scanned_count + len as u32;
                    }
                    if self.scanned_count >= self.needed_count || !has_more {
                        let mut keys: Vec<T> = Vec::new();
                        core::mem::swap(&mut keys, &mut self.buffer);
                        self.draining = false;
                        WorkerAction::Emit {
                            outcome: Ok(RedisScannerResult { keys, can_continue: has_more }),
                            advance: true,
                        }
                    } else {
                        WorkerAction::AdvanceAndPull
                    }
                },
                WorkerEvent::Failed(message) => {
                    self.draining = false;
                    self.buffer = Vec::new();
                    WorkerAction::Emit {
                        outcome: Err(Error::RedisInternalError(message)),
                        advance: false,
                    }
                },
                WorkerEvent::Ended => {
                    self.draining = false;
                    self.buffer = Vec::new();
                    WorkerAction::Emit { outcome: Ok(RedisScannerResult::default()), advance: false }
                },
            }
        }
    }
}

} // verus!
