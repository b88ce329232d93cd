//! The registry of live connections, and the set of connection attempts that
//! are under way.

use vstd::prelude::*;
use crate::client::{
    new_session, outcome_model, refresh_target, scan_decision, session_after, Guid,
    RedisClient, ScanDelivery, ScanStart, SessionModel,
};
use crate::error::Error;
use crate::scanner::{RedisScannerResult, ScanType};
use crate::text::opt_text;
use crate::text_map::TextMap;

verus! {

/// The connections of the application, each under its identifier, and the
/// identifiers for which a connection is being opened right now.
#[derive(Debug)]
pub struct RedisClientManager<C> {
    inner: TextMap<RedisClient<C>>,
    pending: TextMap<()>,
}

impl<C> RedisClientManager<C> {
    /// The registered connections by identifier.
    pub closed spec fn clients(&self) -> Map<Seq<char>, RedisClient<C>> {
        self.inner@
    }

    /// The identifiers with a connection attempt under way.
    pub closed spec fn pending(&self) -> Set<Seq<char>> {
        self.pending@.dom()
    }

    /// A registry without connections and without pending attempts.
    pub fn new() -> (manager: Self)
        ensures
            manager.clients() == Map::<Seq<char>, RedisClient<C>>::empty(),
            manager.pending() == Set::<Seq<char>>::empty(),
    {
        let manager = RedisClientManager { inner: TextMap::new(), pending: TextMap::new() };
        assert(manager.pending() =~= Set::<Seq<char>>::empty());
        manager
    }

    /// Whether a connection is registered under `guid`.
    pub fn contains_key(&self, guid: &Guid) -> (found: bool)
        ensures
            found == self.clients().contains_key(guid@),
    {
        self.inner.contains_key(guid)
    }

    /// The connection registered under `guid`.
    pub fn get(&self, guid: &Guid) -> (found: Option<&RedisClient<C>>)
        ensures
            match found {
                Some(client) => self.clients().contains_key(guid@) && *client
                    == self.clients()[guid@],
                None => !self.clients().contains_key(guid@),
            },
    {
        self.inner.get(guid)
    }

    /// How many connections are registered.
    pub fn len(&self) -> (count: usize)
        ensures
            count == self.clients().dom().len(),
    {
        self.inner.len()
    }

    /// Whether a connection attempt for `guid` is under way.
    pub fn judge_pending(&self, guid: &Guid) -> (pending: bool)
        ensures
            pending == self.pending().contains(guid@),
    {
        self.pending.contains_key(guid)
    }

    /// Notes that a connection attempt for `guid` is under way.
    pub fn mark_as_pending(&mut self, guid: &Guid)
        ensures
            final(self).pending() == old(self).pending().insert(guid@),
            final(self).clients() == old(self).clients(),
    {
        if self.judge_pending(guid) {
            assert(self.pending() =~= self.pending().insert(guid@));
            return ;
        }
        self.pending.insert(guid.clone(), ());
        assert(self.pending() =~= old(self).pending().insert(guid@));
    }

    /// Notes that the connection attempt for `guid` is over.
    pub fn release_pending(&mut self, guid: &Guid)
        ensures
            final(self).pending() == old(self).pending().remove(guid@),
            final(self).clients() == old(self).clients(),
    {
        if !self.judge_pending(guid) {
            assert(self.pending() =~= self.pending().remove(guid@));
            return ;
        }
        self.pending.remove(guid);
        assert(self.pending() =~= old(self).pending().remove(guid@));
    }

    /// Opens the way for a connection attempt: refused while one for the same
    /// identifier is under way, noted as pending otherwise. The caller
    /// connects and then calls `release_pending`, however the attempt ended.
    pub fn invoke_new_client(&mut self, guid: &Guid) -> (res: Result<(), Error>)
        ensures
            final(self).clients() == old(self).clients(),
            match res {
                Ok(_) => !old(self).pending().contains(guid@) && final(self).pending() == old(self).pending().insert(guid@),
                Err(e) => old(self).pending().contains(guid@) && final(self).pending() == old(self).pending() && e == Error::AlreadyAPendingRedisConnection,
            },
    {
        if self.judge_pending(guid) {
            return Err(Error::AlreadyAPendingRedisConnection);
        }
        self.mark_as_pending(guid);
        Ok(())
    }

    /// Decides what a request for a connection has to do: `true` where one is
    /// registered already and nothing is left to do, `false` where the
    /// attempt has been noted as pending and the caller has to connect,
    /// record the connection and release the pending mark. Refused while an
    /// attempt for the same identifier is under way.
    pub fn new_client(&mut self, guid: &Guid) -> (res: Result<bool, Error>)
        ensures
            final(self).clients() == old(self).clients(),
            old(self).clients().contains_key(guid@) ==> res == Ok::<bool, Error>(true) && final(self).pending() == old(self).pending(),
            !old(self).clients().contains_key(guid@) ==> match res {
                Ok(found) => !found && !old(self).pending().contains(guid@) && final(self).pending() == old(self).pending().insert(guid@),
                Err(e) => old(self).pending().contains(guid@) && final(self).pending() == old(self).pending() && e == Error::AlreadyAPendingRedisConnection,
            },
    {
        if self.contains_key(guid) {
            return Ok(true);
        }
        match self.invoke_new_client(guid) {
            Ok(_) => Ok(false),
            Err(e) => Err(e),
        }
    }

    /// Registers a connection under `guid`, unless one is registered there
    /// already: then that one stays and the new one is dropped.
    pub fn record_new_client(&mut self, guid: Guid, client: RedisClient<C>) -> (res: Result<
        (),
        Error,
    >)
        ensures
            res is Ok,
            final(self).pending() == old(self).pending(),
            final(self).clients() == if old(self).clients().contains_key(guid@) {
                old(self).clients()
            } else {
                old(self).clients().insert(guid@, client)
            },
    {
        if self.contains_key(&guid) {
            return Ok(());
        }
        self.inner.insert(guid, client);
        Ok(())
    }

    /// Forgets the connection registered under `guid`, given how closing it
    /// went. An unknown identifier is an error. A connection that failed to
    /// close stays registered, and the failure is reported.
    pub fn release_client(&mut self, guid: &Guid, quit: Result<(), String>) -> (res: Result<
        (),
        Error,
    >)
        ensures
            final(self).pending() == old(self).pending(),
            !old(self).clients().contains_key(guid@) ==> res == Err::<(), Error>(
                Error::FailedToFindExistedRedisConnection,
            ) && final(self).clients() == old(self).clients(),
            old(self).clients().contains_key(guid@) ==> match quit {
                Ok(_) => res is Ok && final(self).clients() == old(self).clients().remove(guid@),
                Err(m) => res == Err::<(), Error>(Error::RedisInternalError(m)) && final(self).clients() == old(self).clients(),
            },
    {
        if !self.contains_key(guid) {
            return Err(Error::FailedToFindExistedRedisConnection);
        }
        match quit {
            Err(message) => Err(Error::RedisInternalError(message)),
            Ok(_) => {
                self.inner.remove(guid);
                Ok(())
            },
        }
    }

    /// Nothing changed from `self` to `after`.
    pub open spec fn unchanged(&self, after: Self) -> bool {
        after.clients() == self.clients() && after.pending() == self.pending()
    }

    /// From `self` to `after` the session of the connection of `guid` became
    /// `session`, and nothing else changed.
    pub open spec fn session_changed(
        &self,
        after: Self,
        guid: Seq<char>,
        session: Option<SessionModel>,
    ) -> bool {
        &&& after.pending() == self.pending()
        &&& after.clients().dom() == self.clients().dom()
        &&& after.clients()[guid].session() == session
        &&& after.clients()[guid].transport() == self.clients()[guid].transport()
        &&& forall|g: Seq<char>|
            g != guid && self.clients().contains_key(g) ==> after.clients()[g]
                == self.clients()[g]
    }

    /// Starts or continues an iteration over `subject` on the connection of
    /// `guid`. An unknown identifier is reported at once, and nothing
    /// changes. Otherwise the connection's session decides.
    fn scan_on(
        &mut self,
        guid: &Guid,
        subject: Option<String>,
        pattern: String,
        iter_count: u32,
        needed_count: u32,
        scan_type: Option<ScanType>,
    ) -> (res: Result<ScanStart, Error>)
        ensures
            !old(self).clients().contains_key(guid@) ==> res == Err::<ScanStart, Error>(
                Error::FailedToFindExistedRedisConnection,
            ) && old(self).unchanged(*final(self)),
            old(self).clients().contains_key(guid@) ==> ({
                let decision = scan_decision(
                    old(self).clients()[guid@].session(),
                    opt_text(subject),
                    pattern@,
                    iter_count,
                    needed_count,
                    scan_type,
                );
                &&& res == Ok::<ScanStart, Error>(decision.1)
                &&& old(self).session_changed(*final(self), guid@, Some(decision.0))
            }),
    {
        let mut client = match self.inner.remove(guid) {
            Some(client) => client,
            None => {
                assert(self.inner@ =~= old(self).inner@);
                return Err(Error::FailedToFindExistedRedisConnection);
            },
        };
        let start = client.scan_on(subject, pattern, iter_count, needed_count, scan_type);
        self.inner.insert(guid.clone(), client);
        assert(self.clients().dom() =~= old(self).clients().dom());
        Ok(start)
    }

    /// Starts the iteration over `subject` on the connection of `guid` over
    /// with a wider window. An unknown identifier is reported at once, and
    /// nothing changes.
    fn refresh_on(
        &mut self,
        guid: &Guid,
        subject: Option<String>,
        pattern: String,
        iter_count: u32,
        offset: Option<u32>,
        scan_type: Option<ScanType>,
    ) -> (res: Result<ScanStart, Error>)
        ensures
            !old(self).clients().contains_key(guid@) ==> res == Err::<ScanStart, Error>(
                Error::FailedToFindExistedRedisConnection,
            ) && old(self).unchanged(*final(self)),
            old(self).clients().contains_key(guid@) ==> ({
                let session = new_session(
                    opt_text(subject),
                    pattern@,
                    iter_count,
                    refresh_target(old(self).clients()[guid@].session(), iter_count, offset),
                    scan_type,
                );
                &&& res == Ok::<ScanStart, Error>(ScanStart::Restart)
                &&& old(self).session_changed(*final(self), guid@, Some(session))
            }),
    {
        let mut client = match self.inner.remove(guid) {
            Some(client) => client,
            None => {
                assert(self.inner@ =~= old(self).inner@);
                return Err(Error::FailedToFindExistedRedisConnection);
            },
        };
        let start = client.refresh_on(subject, pattern, iter_count, offset, scan_type);
        self.inner.insert(guid.clone(), client);
        assert(self.clients().dom() =~= old(self).clients().dom());
        Ok(start)
    }

    /// Starts or continues a scan of the keyspace on the connection of
    /// `guid`. An unknown identifier is reported at once: nothing changes and
    /// no worker is asked for. Otherwise the connection's session decides, as
    /// `RedisClient::scan` says.
    pub fn scan(
        &mut self,
        guid: &Guid,
        pattern: String,
        iter_count: u32,
        needed_count: u32,
        scan_type: Option<ScanType>,
    ) -> (res: Result<ScanStart, Error>)
        ensures
            !old(self).clients().contains_key(guid@) ==> res == Err::<ScanStart, Error>(
                Error::FailedToFindExistedRedisConnection,
            ) && old(self).unchanged(*final(self)),
            old(self).clients().contains_key(guid@) ==> ({
                let decision = scan_decision(
                    old(self).clients()[guid@].session(),
                    None,
                    pattern@,
                    iter_count,
                    needed_count,
                    scan_type,
                );
                &&& res == Ok::<ScanStart, Error>(decision.1)
                &&& old(self).session_changed(*final(self), guid@, Some(decision.0))
            }),
    {
        self.scan_on(guid, None, pattern, iter_count, needed_count, scan_type)
    }

    /// Starts the scan of the keyspace on the connection of `guid` over with
    /// a wider window, as `RedisClient::refresh_scan` says. An unknown
    /// identifier is reported at once, and nothing changes.
    pub fn refresh_scan(
        &mut self,
        guid: &Guid,
        pattern: String,
        iter_count: u32,
        offset: Option<u32>,
        scan_type: Option<ScanType>,
    ) -> (res: Result<ScanStart, Error>)
        ensures
            !old(self).clients().contains_key(guid@) ==> res == Err::<ScanStart, Error>(
                Error::FailedToFindExistedRedisConnection,
            ) && old(self).unchanged(*final(self)),
            old(self).clients().contains_key(guid@) ==> ({
                let session = new_session(
                    None,
                    pattern@,
                    iter_count,
                    refresh_target(old(self).clients()[guid@].session(), iter_count, offset),
                    scan_type,
                );
                &&& res == Ok::<ScanStart, Error>(ScanStart::Restart)
                &&& old(self).session_changed(*final(self), guid@, Some(session))
            }),
    {
        self.refresh_on(guid, None, pattern, iter_count, offset, scan_type)
    }

    /// Starts or continues an iteration over the fields of the hash `key` on
    /// the connection of `guid`, as `RedisClient::hscan` says. An unknown
    /// identifier is reported at once, and nothing changes.
    pub fn hscan(
        &mut self,
        guid: &Guid,
        key: String,
        pattern: String,
        iter_count: u32,
        needed_count: u32,
    ) -> (res: Result<ScanStart, Error>)
        ensures
            !old(self).clients().contains_key(guid@) ==> res == Err::<ScanStart, Error>(
                Error::FailedToFindExistedRedisConnection,
            ) && old(self).unchanged(*final(self)),
            old(self).clients().contains_key(guid@) ==> ({
                let decision = scan_decision(
                    old(self).clients()[guid@].session(),
                    Some(key@),
                    pattern@,
                    iter_count,
                    needed_count,
                    None,
                );
                &&& res == Ok::<ScanStart, Error>(decision.1)
                &&& old(self).session_changed(*final(self), guid@, Some(decision.0))
            }),
    {
        self.scan_on(guid, Some(key), pattern, iter_count, needed_count, None)
    }

    /// Starts the iteration over the fields of the hash `key` on the
    /// connection of `guid` over with a wider window, as
    /// `RedisClient::refresh_hscan` says. An unknown identifier is reported
    /// at once, and nothing changes.
    pub fn refresh_hscan(
        &mut self,
        guid: &Guid,
        key: String,
        pattern: String,
        iter_count: u32,
        offset: Option<u32>,
    ) -> (res: Result<ScanStart, Error>)
        ensures
            !old(self).clients().contains_key(guid@) ==> res == Err::<ScanStart, Error>(
                Error::FailedToFindExistedRedisConnection,
            ) && old(self).unchanged(*final(self)),
            old(self).clients().contains_key(guid@) ==> ({
                let session = new_session(
                    Some(key@),
                    pattern@,
                    iter_count,
                    refresh_target(old(self).clients()[guid@].session(), iter_count, offset),
                    None,
                );
                &&& res == Ok::<ScanStart, Error>(ScanStart::Restart)
                &&& old(self).session_changed(*final(self), guid@, Some(session))
            }),
    {
        self.refresh_on(guid, Some(key), pattern, iter_count, offset, None)
    }

    /// Takes what the hand-off channel of the connection of `guid` yielded,
    /// as `RedisClient::complete` says. An unknown identifier is reported
    /// in place of the outcome, and nothing changes.
    pub fn complete<T>(&mut self, guid: &Guid, received: Option<ScanDelivery<T>>) -> (res: Result<
        RedisScannerResult<T>,
        Error,
    >)
        ensures
            !old(self).clients().contains_key(guid@) ==> res == Err::<
                RedisScannerResult<T>,
                Error,
            >(Error::FailedToFindExistedRedisConnection) && old(self).unchanged(*final(self)),
            old(self).clients().contains_key(guid@) ==> match received {
                Some(d) => {
                    &&& res == d.outcome
                    &&& old(self).session_changed(
                        *final(self),
                        guid@,
                        session_after(
                            old(self).clients()[guid@].session(),
                            Some(outcome_model(d.outcome)),
                            d.scanned_count,
                        ),
                    )
                },
                None => {
                    &&& res == Err::<RedisScannerResult<T>, Error>(
                        Error::FailedToGetRedisScanResult,
                    )
                    &&& old(self).session_changed(*final(self), guid@, None)
                },
            },
    {
        let mut client = match self.inner.remove(guid) {
            Some(client) => client,
            None => {
                assert(self.inner@ =~= old(self).inner@);
                return Err(Error::FailedToFindExistedRedisConnection);
            },
        };
        let res = client.complete(received);
        self.inner.insert(guid.clone(), client);
        assert(self.clients().dom() =~= old(self).clients().dom());
        res
    }
}

} // verus!
