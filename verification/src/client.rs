//! One connection's scan session: the record that decides whether a scan
//! request goes on with the worker at hand or starts over with a new one.

use vstd::prelude::*;
use crate::error::Error;
use crate::scanner::{RedisScannerResult, ResultModel, ScanType};
use crate::text::opt_text;

verus! {

/// The identifier under which a connection is known.
pub type Guid = String;

/// The session as a mathematical value.
pub struct SessionModel {
    /// The hash whose fields the session iterates, or nothing where it
    /// iterates the keyspace.
    pub subject: Option<Seq<char>>,
    /// The glob the session scans for. Fixed for the life of the session.
    pub pattern: Seq<char>,
    /// The count hint sent with every round trip.
    pub iter_count: u32,
    /// The type filter sent with every round trip.
    pub scan_type: Option<ScanType>,
    /// The count at which the session's worker stops a drain.
    pub needed_count: u32,
    /// The worker's count as last reported.
    pub scanned_count: u32,
    /// Whether the last snapshot said that the cursor is done.
    pub exhausted: bool,
}

/// What the caller of a scan request has to set in motion.
#[derive(Clone, Copy, Debug, PartialEq, Eq, Structural)]
pub enum ScanStart {
    /// The session's worker carries on: set its resume signal.
    Resume,
    /// Abandon the old worker, if any. Open a cursor stream and create a
    /// worker from the session's parameters, with the resume signal set.
    Restart,
}

/// Whether a request with these parameters continues session `s`.
pub open spec fn same_scan(
    s: SessionModel,
    subject: Option<Seq<char>>,
    pattern: Seq<char>,
    iter_count: u32,
    scan_type: Option<ScanType>,
) -> bool {
    s.subject == subject && s.pattern == pattern && s.iter_count == iter_count && s.scan_type
        == scan_type
}

/// A session that has delivered nothing yet.
pub open spec fn new_session(
    subject: Option<Seq<char>>,
    pattern: Seq<char>,
    iter_count: u32,
    needed_count: u32,
    scan_type: Option<ScanType>,
) -> SessionModel {
    SessionModel {
        subject,
        pattern,
        iter_count,
        scan_type,
        needed_count,
        scanned_count: 0,
        exhausted: false,
    }
}

/// The larger of the two counts.
pub open spec fn larger(a: u32, b: u32) -> u32 {
    if a >= b {
        a
    } else {
        b
    }
}

/// `a + b`, held at the largest `u32`.
pub open spec fn saturating_sum(a: u32, b: u32) -> u32 {
    if a + b > u32::MAX {
        u32::MAX
    } else {
        (a + b) as u32
    }
}

/// What a scan request does to the session, and what it asks of the caller.
///
/// The page size is raised to the needed count. A session over the same
/// subject with the same pattern, page size and type filter is kept as it is.
/// Anything else starts a session that stops its drains at the raised page
/// size.
pub open spec fn scan_decision(
    current: Option<SessionModel>,
    subject: Option<Seq<char>>,
    pattern: Seq<char>,
    iter_count: u32,
    needed_count: u32,
    scan_type: Option<ScanType>,
) -> (SessionModel, ScanStart) {
    let page = larger(iter_count, needed_count);
    if current is Some && same_scan(current->0, subject, pattern, page, scan_type) {
        (current->0, ScanStart::Resume)
    } else {
        (new_session(subject, pattern, page, page, scan_type), ScanStart::Restart)
    }
}



/// The count at which the worker of a refreshed session stops: what the
/// session before it had reached, or the page size where there was none,
/// plus the offset.
pub open spec fn refresh_target(
    current: Option<SessionModel>,
    iter_count: u32,
    offset: Option<u32>,
) -> u32 {
    let base = match current {
        Some(s) => s.scanned_count,
        None => iter_count,
    };
    let step = match offset {
        Some(o) => o,
        None => 0,
    };
    saturating_sum(base, step)
}

/// What the worker's runner sends through the hand-off channel: the outcome
/// of the drain, and the worker's count when it emitted.
#[derive(Debug)]
pub struct ScanDelivery<T> {
    pub outcome: Result<RedisScannerResult<T>, Error>,
    pub scanned_count: u32,
}

/// What receiving a delivery does to the session. A snapshot is recorded: the
/// count and whether the cursor is done. An error, or a channel that closed
/// without a value, leaves no session behind, so that the next request starts
/// a new one.
pub open spec fn session_after<T>(
    current: Option<SessionModel>,
    outcome: Option<Result<ResultModel<T>, Error>>,
    scanned_count: u32,
) -> Option<SessionModel> {
    match (current, outcome) {
        (Some(s), Some(Ok(r))) => Some(
            SessionModel { scanned_count, exhausted: !r.can_continue, ..s },
        ),
        _ => None,
    }
}

/// The scan session of one connection.
#[derive(Debug)]
pub struct RedisScanner {
    subject: Option<String>,
    pattern: String,
    iter_count: u32,
    scan_type: Option<ScanType>,
    needed_count: u32,
    scanned_count: u32,
    exhausted: bool,
}

impl View for RedisScanner {
    type V = SessionModel;

    closed spec fn view(&self) -> SessionModel {
        SessionModel {
            subject: opt_text(self.subject),
            pattern: self.pattern@,
            iter_count: self.iter_count,
            scan_type: self.scan_type,
            needed_count: self.needed_count,
            scanned_count: self.scanned_count,
            exhausted: self.exhausted,
        }
    }
}

impl RedisScanner {
    /// The hash whose fields to iterate, or nothing for the keyspace.
    pub fn subject(&self) -> (subject: &Option<String>)
        ensures
            opt_text(*subject) == self@.subject,
    {
        &self.subject
    }

    /// The glob to open the cursor stream with.
    pub fn pattern(&self) -> (pattern: &String)
        ensures
            pattern@ == self@.pattern,
    {
        &self.pattern
    }

    /// The count hint to open the cursor stream with.
    pub fn iter_count(&self) -> (count: u32)
        ensures
            count == self@.iter_count,
    {
        self.iter_count
    }

    /// The type filter to open the cursor stream with.
    pub fn scan_type(&self) -> (scan_type: Option<ScanType>)
        ensures
            scan_type == self@.scan_type,
    {
        self.scan_type
    }

    /// The target to create the worker with.
    pub fn needed_count(&self) -> (count: u32)
        ensures
            count == self@.needed_count,
    {
        self.needed_count
    }

    /// The worker's count as last reported.
    pub fn scanned_count(&self) -> (count: u32)
        ensures
            count == self@.scanned_count,
    {
        self.scanned_count
    }

    /// Whether the last snapshot said that the cursor is done.
    pub fn exhausted(&self) -> (flag: bool)
        ensures
            flag == self@.exhausted,
    {
        self.exhausted
    }
}

/// A connection: the transport handle, carried untouched, and the scan
/// session that runs on it, if any.
#[derive(Debug)]
pub struct RedisClient<C> {
    manager: C,
    scanner: Option<RedisScanner>,
}

impl<C> RedisClient<C> {
    /// The transport handle.
    pub closed spec fn transport(&self) -> C {
        self.manager
    }

    /// The session, if one exists.
    pub closed spec fn session(&self) -> Option<SessionModel> {
        match self.scanner {
            Some(s) => Some(s@),
            None => None,
        }
    }

    /// A connection over the given transport handle, with no session.
    pub fn new(manager: C) -> (client: Self)
        ensures
            client.transport() == manager,
            client.session() is None,
    {
        RedisClient { manager, scanner: None }
    }

    /// The transport handle.
    pub fn conn(&self) -> (conn: &C)
        ensures
            *conn == self.transport(),
    {
        &self.manager
    }

    /// The transport handle, to change it.
    pub fn conn_mut(&mut self) -> (conn: &mut C)
        ensures
            *conn == old(self).transport(),
            final(self).transport() == *final(conn),
            final(self).session() == old(self).session(),
    {
        &mut self.manager
    }

    /// The session, if one exists.
    pub fn scanner(&self) -> (scanner: Option<&RedisScanner>)
        ensures
            match scanner {
                Some(s) => self.session() == Some(s@),
                None => self.session() is None,
            },
    {
        self.scanner.as_ref()
    }

    /// Replaces the session, whatever it was, by one that has delivered
    /// nothing.
    fn _invoke_new_scan(
        &mut self,
        subject: Option<String>,
        pattern: String,
        iter_count: u32,
        needed_count: u32,
        scan_type: Option<ScanType>,
    )
        ensures
            final(self).transport() == old(self).transport(),
            final(self).session() == Some(
                new_session(opt_text(subject), pattern@, iter_count, needed_count, scan_type),
            ),
    {
        self.scanner = Some(
            RedisScanner {
                subject,
                pattern,
                iter_count,
                scan_type,
                needed_count,
                scanned_count: 0,
                exhausted: false,
            },
        );
    }

    /// Starts or continues an iteration over `subject`: the fields of a hash,
    /// or the keyspace. The session is reused if and only if subject,
    /// pattern, raised page size and type filter are those it was started
    /// with; otherwise a new session takes its place.
    pub fn scan_on(
        &mut self,
        subject: Option<String>,
        pattern: String,
        iter_count: u32,
        needed_count: u32,
        scan_type: Option<ScanType>,
    ) -> (start: ScanStart)
        ensures
            final(self).transport() == old(self).transport(),
            (final(self).session()->0, start) == scan_decision(
                old(self).session(),
                opt_text(subject),
                pattern@,
                iter_count,
                needed_count,
                scan_type,
            ),
            final(self).session() is Some,
    {
        let iter_count = if iter_count >= needed_count {
            iter_count
        } else {
            needed_count
        };
        let reuse = match &self.scanner {
            Some(scanner) => same_subject(&scanner.subject, &subject) && scanner.pattern
                == pattern && scanner.iter_count == iter_count && same_type(
                scanner.scan_type,
                scan_type,
            ),
            None => false,
        };
        if reuse {
            ScanStart::Resume
        } else {
            self._invoke_new_scan(subject, pattern, iter_count, iter_count, scan_type);
            ScanStart::Restart
        }
    }

    /// Starts an iteration over `subject` anew with a wider window: the new
    /// session stops at what the old one had reached plus `offset`.
    pub fn refresh_on(
        &mut self,
        subject: Option<String>,
        pattern: String,
        iter_count: u32,
        offset: Option<u32>,
        scan_type: Option<ScanType>,
    ) -> (start: ScanStart)
        ensures
            start == ScanStart::Restart,
            final(self).transport() == old(self).transport(),
            final(self).session() == Some(
                new_session(
                    opt_text(subject),
                    pattern@,
                    iter_count,
                    refresh_target(old(self).session(), iter_count, offset),
                    scan_type,
                ),
            ),
    {
        let base = match &self.scanner {
            Some(scanner) => scanner.scanned_count,
            None => iter_count,
        };
        let step = match offset {
            Some(o) => o,
            None => 0,
        };
        let needed_count = base.saturating_add(step);
        self._invoke_new_scan(subject, pattern, iter_count, needed_count, scan_type);
        ScanStart::Restart
    }

    /// Starts or continues a scan of the keyspace. The session is reused if
    /// and only if it scans the keyspace and pattern, raised page size and
    /// type filter are those it was started with; otherwise a new session
    /// takes its place.
    pub fn scan(
        &mut self,
        pattern: String,
        iter_count: u32,
        needed_count: u32,
        scan_type: Option<ScanType>,
    ) -> (start: ScanStart)
        ensures
            final(self).transport() == old(self).transport(),
            (final(self).session()->0, start) == scan_decision(
                old(self).session(),
                None,
                pattern@,
                iter_count,
                needed_count,
                scan_type,
            ),
            final(self).session() is Some,
    {
        self.scan_on(None, pattern, iter_count, needed_count, scan_type)
    }

    /// Starts the scan of the keyspace over with a wider window: the new
    /// session stops at what the old one had reached plus `offset`. Without
    /// an old session the page size stands in for what was reached; without
    /// an offset nothing is added. The sum is held at the largest `u32`, and
    /// is never below what the old session had reached.
    pub fn refresh_scan(
        &mut self,
        pattern: String,
        iter_count: u32,
        offset: Option<u32>,
        scan_type: Option<ScanType>,
    ) -> (start: ScanStart)
        ensures
            start == ScanStart::Restart,
            final(self).transport() == old(self).transport(),
            final(self).session() == Some(
                new_session(
                    None,
                    pattern@,
                    iter_count,
                    refresh_target(old(self).session(), iter_count, offset),
                    scan_type,
                ),
            ),
            old(self).session() matches Some(before) ==> {
                let target = final(self).session()->0.needed_count;
                &&& target >= before.scanned_count
                &&& (offset is None || offset == Some(0u32)) ==> target == before.scanned_count
            },
    {
        self.refresh_on(None, pattern, iter_count, offset, scan_type)
    }

    /// Starts or continues an iteration over the fields of the hash `key`.
    /// The session is reused if and only if it iterates that hash and pattern
    /// and raised page size are those it was started with.
    pub fn hscan(&mut self, key: String, pattern: String, iter_count: u32, needed_count: u32) -> (start:
        ScanStart)
        ensures
            final(self).transport() == old(self).transport(),
            (final(self).session()->0, start) == scan_decision(
                old(self).session(),
                Some(key@),
                pattern@,
                iter_count,
                needed_count,
                None,
            ),
            final(self).session() is Some,
    {
        self.scan_on(Some(key), pattern, iter_count, needed_count, None)
    }

    /// Starts the iteration over the fields of the hash `key` over with a
    /// wider window, as `refresh_scan` does for the keyspace.
    pub fn refresh_hscan(
        &mut self,
        key: String,
        pattern: String,
        iter_count: u32,
        offset: Option<u32>,
    ) -> (start: ScanStart)
        ensures
            start == ScanStart::Restart,
            final(self).transport() == old(self).transport(),
            final(self).session() == Some(
                new_session(
                    Some(key@),
                    pattern@,
                    iter_count,
                    refresh_target(old(self).session(), iter_count, offset),
                    None,
                ),
            ),
            old(self).session() matches Some(before) ==> {
                let target = final(self).session()->0.needed_count;
                &&& target >= before.scanned_count
                &&& (offset is None || offset == Some(0u32)) ==> target == before.scanned_count
            },
    {
        self.refresh_on(Some(key), pattern, iter_count, offset, None)
    }

    /// Takes what the hand-off channel yielded for the request under way:
    /// `None` if it closed without a value. Hands the outcome to the caller
    /// and records it in the session.
    pub fn complete<T>(&mut self, received: Option<ScanDelivery<T>>) -> (res: Result<
        RedisScannerResult<T>,
        Error,
    >)
        ensures
            final(self).transport() == old(self).transport(),
            match received {
                Some(d) => {
                    &&& final(self).session() == session_after(
                        old(self).session(),
                        Some(outcome_model(d.outcome)),
                        d.scanned_count,
                    )
                    &&& res == d.outcome
                },
                None => {
                    &&& final(self).session() is None
                    &&& res == Err::<RedisScannerResult<T>, Error>(
                        Error::FailedToGetRedisScanResult,
                    )
                },
            },
    {
        match received {
            Some(delivery) => {
                let ScanDelivery { outcome, scanned_count } = delivery;
                let session = self.scanner.take();
                match (&outcome, session) {
                    (Ok(result), Some(mut scanner)) => {
                        scanner.scanned_count = scanned_count;
                        scanner.exhausted = !result.can_continue();
                        self.scanner = Some(scanner);
                    },
                    _ => {},
                }
                outcome
            },
            None => {
                self.scanner = None;
                Err(Error::FailedToGetRedisScanResult)
            },
        }
    }
}

/// The outcome of a drain as a mathematical value.
pub open spec fn outcome_model<T>(outcome: Result<RedisScannerResult<T>, Error>) -> Result<
    ResultModel<T>,
    Error,
> {
    match outcome {
        Ok(r) => Ok(r@),
        Err(e) => Err(e),
    }
}

/// Compares the subjects of two scans.
fn same_subject(a: &Option<String>, b: &Option<String>) -> (same: bool)
    ensures
        same == (opt_text(*a) == opt_text(*b)),
{
    match (a, b) {
        (Some(x), Some(y)) => *x == *y,
        (None, None) => true,
        _ => false,
    }
}

/// Compares two type filters.
fn same_type(a: Option<ScanType>, b: Option<ScanType>) -> (same: bool)
    ensures
        same == (a == b),
{
    match (a, b) {
        (Some(x), Some(y)) => x == y,
        (None, None) => true,
        _ => false,
    }
}

} // verus!
