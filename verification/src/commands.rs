//! The scan commands of the user interface: what is checked before a worker
//! is asked for, and what becomes of a worker's snapshot.

use vstd::prelude::*;
use vstd::string::StringExecFns;
use crate::client::{new_session, refresh_target, scan_decision, Guid, ScanStart};
use crate::command::TTL;
use crate::config::{get_redis_max_db_nums, low_byte, CrateConfig};
use crate::error::Error;
use crate::key_type::{key_type_named, RedisKeyType};
use crate::text::{lowercase_of, texts_of};
use crate::manager::RedisClientManager;
use crate::response::{default_message, Response, ResponseStatus};
use crate::scanner::RedisScannerResult;
use crate::text_map::TextMap;

verus! {

/// The glob for what the user typed into the filter: every key where nothing
/// was typed, every key that contains the text otherwise.
pub open spec fn pattern_of(condition_part: Option<String>) -> Seq<char> {
    match condition_part {
        Some(part) => if part@.len() == 0 {
            seq!['*']
        } else {
            seq!['*'] + part@ + seq!['*']
        },
        None => seq!['*'],
    }
}

/// The text, unless it is empty.
pub fn non_empty(text: Option<String>) -> (res: Option<String>)
    ensures
        res == match text {
            Some(t) => if t@.len() == 0 {
                None
            } else {
                Some(t)
            },
            None => None,
        },
{
    match text {
        Some(t) => if t.as_str().is_empty() {
            None
        } else {
            Some(t)
        },
        None => None,
    }
}

/// The glob for what the user typed into the filter.
pub fn scan_pattern(condition_part: Option<String>) -> (pattern: String)
    ensures
        pattern@ == pattern_of(condition_part),
{
    proof {
        reveal_strlit("*");
    }
    assert("*"@ =~= seq!['*']);
    match non_empty(condition_part) {
        Some(part) => {
            let pattern = String::from_str("*").concat(part.as_str()).concat("*");
            assert(pattern@ =~= seq!['*'] + part@ + seq!['*']);
            pattern
        },
        None => String::from_str("*"),
    }
}

/// Starts or continues the scan of all keys on the connection of `guid`, a
/// page of `redis_each_scan_count` keys at a time. A connection that is not
/// registered is reported at once: nothing changes and no worker is asked
/// for.
pub fn scan_all_keys<C>(
    manager: &mut RedisClientManager<C>,
    guid: &Guid,
    condition_part: Option<String>,
    redis_each_scan_count: u32,
) -> (res: Result<ScanStart, Error>)
    ensures
        !old(manager).clients().contains_key(guid@) ==> res == Err::<ScanStart, Error>(
            Error::FailedToFindExistedRedisConnection,
        ) && old(manager).unchanged(*final(manager)),
        old(manager).clients().contains_key(guid@) ==> ({
            let decision = scan_decision(
                old(manager).clients()[guid@].session(),
                None,
                pattern_of(condition_part),
                redis_each_scan_count,
                redis_each_scan_count,
                None,
            );
            &&& res == Ok::<ScanStart, Error>(decision.1)
            &&& old(manager).session_changed(*final(manager), guid@, Some(decision.0))
        }),
{
    let pattern = scan_pattern(condition_part);
    manager.scan(guid, pattern, redis_each_scan_count, redis_each_scan_count, None)
}

/// Starts the scan of all keys on the connection of `guid` over, with a
/// window that is `offset` keys wider than what the session had reached. A
/// connection that is not registered is reported at once, and nothing
/// changes.
pub fn refresh_scanned_all_keys<C>(
    manager: &mut RedisClientManager<C>,
    guid: &Guid,
    condition_part: Option<String>,
    offset: Option<u32>,
    redis_each_scan_count: u32,
) -> (res: Result<ScanStart, Error>)
    ensures
        !old(manager).clients().contains_key(guid@) ==> res == Err::<ScanStart, Error>(
            Error::FailedToFindExistedRedisConnection,
        ) && old(manager).unchanged(*final(manager)),
        old(manager).clients().contains_key(guid@) ==> ({
            let session = new_session(
                None,
                pattern_of(condition_part),
                redis_each_scan_count,
                refresh_target(
                    old(manager).clients()[guid@].session(),
                    redis_each_scan_count,
                    offset,
                ),
                None,
            );
            &&& res == Ok::<ScanStart, Error>(ScanStart::Restart)
            &&& old(manager).session_changed(*final(manager), guid@, Some(session))
        }),
{
    let pattern = scan_pattern(condition_part);
    manager.refresh_scan(guid, pattern, redis_each_scan_count, offset, None)
}

/// Starts or continues the iteration over the fields of the hash `key_name`
/// on the connection of `guid`. An empty key name is refused before anything
/// else is looked at; then a connection that is not registered is reported.
/// In both cases nothing changes.
pub fn hscan_key_all_values<C>(
    manager: &mut RedisClientManager<C>,
    guid: &Guid,
    key_name: String,
    condition_part: Option<String>,
    redis_each_scan_count: u32,
) -> (res: Result<ScanStart, Error>)
    ensures
        key_name@.len() == 0 ==> res == Err::<ScanStart, Error>(Error::InvalidRedisKeyName)
            && old(manager).unchanged(*final(manager)),
        key_name@.len() > 0 && !old(manager).clients().contains_key(guid@) ==> res == Err::<
            ScanStart,
            Error,
        >(Error::FailedToFindExistedRedisConnection) && old(manager).unchanged(*final(manager)),
        key_name@.len() > 0 && old(manager).clients().contains_key(guid@) ==> ({
            let decision = scan_decision(
                old(manager).clients()[guid@].session(),
                Some(key_name@),
                pattern_of(condition_part),
                redis_each_scan_count,
                redis_each_scan_count,
                None,
            );
            &&& res == Ok::<ScanStart, Error>(decision.1)
            &&& old(manager).session_changed(*final(manager), guid@, Some(decision.0))
        }),
{
    if key_name.as_str().is_empty() {
        return Err(Error::InvalidRedisKeyName);
    }
    let pattern = scan_pattern(condition_part);
    manager.hscan(guid, key_name, pattern, redis_each_scan_count, redis_each_scan_count)
}

/// Starts the iteration over the fields of the hash `key_name` on the
/// connection of `guid` over, with a window that is `offset` fields wider
/// than what the session had reached. An empty key name is refused before
/// anything else is looked at; then a connection that is not registered is
/// reported. In both cases nothing changes.
pub fn refresh_hscaned_key_all_values<C>(
    manager: &mut RedisClientManager<C>,
    guid: &Guid,
    key_name: String,
    condition_part: Option<String>,
    offset: Option<u32>,
    redis_each_scan_count: u32,
) -> (res: Result<ScanStart, Error>)
    ensures
        key_name@.len() == 0 ==> res == Err::<ScanStart, Error>(Error::InvalidRedisKeyName)
            && old(manager).unchanged(*final(manager)),
        key_name@.len() > 0 && !old(manager).clients().contains_key(guid@) ==> res == Err::<
            ScanStart,
            Error,
        >(Error::FailedToFindExistedRedisConnection) && old(manager).unchanged(*final(manager)),
        key_name@.len() > 0 && old(manager).clients().contains_key(guid@) ==> ({
            let session = new_session(
                Some(key_name@),
                pattern_of(condition_part),
                redis_each_scan_count,
                refresh_target(
                    old(manager).clients()[guid@].session(),
                    redis_each_scan_count,
                    offset,
                ),
                None,
            );
            &&& res == Ok::<ScanStart, Error>(ScanStart::Restart)
            &&& old(manager).session_changed(*final(manager), guid@, Some(session))
        }),
{
    if key_name.as_str().is_empty() {
        return Err(Error::InvalidRedisKeyName);
    }
    let pattern = scan_pattern(condition_part);
    manager.refresh_hscan(guid, key_name, pattern, redis_each_scan_count, offset)
}

/// What a key scan shows the user: the keys that are text, and whether more
/// can be loaded.
#[derive(Debug)]
pub struct ScannedKeys {
    pub keys: Vec<String>,
    pub can_continue: bool,
}

/// The keys that are text, in the order they came in. A key that is no valid
/// text comes in as `None` and is left out.
pub open spec fn text_keys(keys: Seq<Option<String>>) -> Seq<String>
    decreases keys.len(),
{
    if keys.len() == 0 {
        Seq::empty()
    } else {
        match keys.last() {
            Some(key) => text_keys(keys.drop_last()).push(key),
            None => text_keys(keys.drop_last()),
        }
    }
}

/// The successful response for the snapshot of a key scan.
pub fn scanned_keys_response(result: RedisScannerResult<Option<String>>) -> (res: Response<
    ScannedKeys,
>)
    ensures
        res.status == ResponseStatus::Success,
        res.message@ == default_message(),
        res.data matches Some(shown) && shown.keys@ == text_keys(result@.keys)
            && shown.can_continue == result@.can_continue,
{
    let can_continue = result.can_continue();
    let found = result.keys();
    let mut keys: Vec<String> = Vec::new();
    let mut i: usize = 0;
    while i < found.len()
        invariant
            i <= found.len(),
            keys@ == text_keys(found@.subrange(0, i as int)),
        decreases found.len() - i,
    {
        assert(found@.subrange(0, i + 1).drop_last() =~= found@.subrange(0, i as int));
        match &found[i] {
            Some(key) => {
                keys.push(key.clone());
            },
            None => {},
        }
        i += 1;
    }
    assert(found@.subrange(0, i as int) =~= found@);
    Response::success(Some(ScannedKeys { keys, can_continue }), None)
}

/// What a hash scan shows the user: the fields with their values, and
/// whether more can be loaded.
#[derive(Debug)]
pub struct ScannedFields {
    pub fields: TextMap<String>,
    pub can_continue: bool,
}

/// The text, or the empty text where there is none.
pub open spec fn text_or_empty(text: Option<String>) -> Seq<char> {
    match text {
        Some(t) => t@,
        None => Seq::empty(),
    }
}

/// The fields of a hash by name. A name or a value that is no valid text
/// comes in as `None` and counts as the empty text. Of two fields with the
/// same name the one that came in first stays.
pub open spec fn first_fields(items: Seq<(Option<String>, Option<String>)>) -> Map<
    Seq<char>,
    Seq<char>,
>
    decreases items.len(),
{
    if items.len() == 0 {
        Map::empty()
    } else {
        let before = first_fields(items.drop_last());
        let name = text_or_empty(items.last().0);
        if before.contains_key(name) {
            before
        } else {
            before.insert(name, text_or_empty(items.last().1))
        }
    }
}

/// A copy of the text, or the empty text where there is none.
fn copy_or_empty(text: &Option<String>) -> (res: String)
    ensures
        res@ == text_or_empty(*text),
{
    match text {
        Some(t) => t.clone(),
        None => String::new(),
    }
}

/// The successful response for the snapshot of a hash scan.
pub fn scanned_fields_response(result: RedisScannerResult<(Option<String>, Option<String>)>) -> (res:
    Response<ScannedFields>)
    ensures
        res.status == ResponseStatus::Success,
        res.message@ == default_message(),
        res.data matches Some(shown) && texts_of(shown.fields@) == first_fields(result@.keys)
            && shown.can_continue == result@.can_continue,
{
    let can_continue = result.can_continue();
    let items = result.keys();
    let mut fields: TextMap<String> = TextMap::new();
    let mut i: usize = 0;
    assert(texts_of(fields@) =~= first_fields(items@.subrange(0, 0)));
    while i < items.len()
        invariant
            i <= items.len(),
            texts_of(fields@) == first_fields(items@.subrange(0, i as int)),
        decreases items.len() - i,
    {
        assert(items@.subrange(0, i + 1).drop_last() =~= items@.subrange(0, i as int));
        let ghost before = fields@;
        let name = copy_or_empty(&items[i].0);
        if !fields.contains_key(&name) {
            let value = copy_or_empty(&items[i].1);
            fields.insert(name, value);
            assert(texts_of(fields@) =~= texts_of(before).insert(name@, value@));
        }
        i += 1;
    }
    assert(items@.subrange(0, i as int) =~= items@);
    Response::success(Some(ScannedFields { fields, can_continue }), None)
}

/// A request to the server that a command has checked and now wants sent on
/// the connection it names.
#[derive(Debug)]
pub enum RedisCommand {
    /// `SELECT db`.
    Select { db: u8 },
    /// `FLUSHALL ASYNC`.
    FlushAll,
    /// `INFO ALL`.
    Info,
    /// `KEYS pattern`.
    Keys { pattern: String },
    /// `SET key value`.
    SetValue { key: String, value: String },
    /// `HSET key field value`.
    SetField { key: String, field: String, value: String },
    /// `DEL key`.
    Del { key: String },
    /// `TYPE key`.
    Type { key: String },
    /// `TTL key`.
    Ttl { key: String },
    /// `EXPIRE key ttl`.
    Expire { key: String, ttl: TTL },
    /// `RENAME key new_key`.
    Rename { key: String, new_key: String },
    /// `GET key`.
    Get { key: String },
    /// `HGETALL key`.
    GetFields { key: String },
}

/// Why a command on the key `key_name` of the connection of `guid` is
/// refused, if it is: the key name is looked at first, then the connection.
pub open spec fn key_refusal<C>(
    manager: &RedisClientManager<C>,
    guid: Seq<char>,
    key_name: Seq<char>,
) -> Option<Error> {
    if key_name.len() == 0 {
        Some(Error::InvalidRedisKeyName)
    } else if !manager.clients().contains_key(guid) {
        Some(Error::FailedToFindExistedRedisConnection)
    } else {
        None
    }
}

/// Checks a command on one key: the name must not be empty and the
/// connection has to be registered.
pub fn check_key<C>(manager: &RedisClientManager<C>, guid: &Guid, key_name: &String) -> (res: Result<
    (),
    Error,
>)
    ensures
        match key_refusal(manager, guid@, key_name@) {
            Some(e) => res == Err::<(), Error>(e),
            None => res is Ok,
        },
{
    if key_name.as_str().is_empty() {
        return Err(Error::InvalidRedisKeyName);
    }
    if !manager.contains_key(guid) {
        return Err(Error::FailedToFindExistedRedisConnection);
    }
    Ok(())
}

/// Checks a command on a connection as a whole: it has to be registered.
pub fn check_connection<C>(manager: &RedisClientManager<C>, guid: &Guid) -> (res: Result<(), Error>)
    ensures
        manager.clients().contains_key(guid@) ==> res is Ok,
        !manager.clients().contains_key(guid@) ==> res == Err::<(), Error>(
            Error::FailedToFindExistedRedisConnection,
        ),
{
    if !manager.contains_key(guid) {
        return Err(Error::FailedToFindExistedRedisConnection);
    }
    Ok(())
}

/// How many databases the connection of `guid` offers: what the
/// configuration says, once the connection is known to exist.
pub fn db_nums<C>(manager: &RedisClientManager<C>, cfg: &CrateConfig, guid: &Guid) -> (res: Result<
    Response<u8>,
    Error,
>)
    ensures
        !manager.clients().contains_key(guid@) ==> res matches Err(
            Error::FailedToFindExistedRedisConnection,
        ),
        manager.clients().contains_key(guid@) ==> match res {
            Ok(response) => {
                &&& cfg@.ints.contains_key("redis.max_db_nums"@)
                &&& response.status == ResponseStatus::Success
                &&& response.message@ == default_message()
                &&& response.data == Some(low_byte(cfg@.ints["redis.max_db_nums"@]))
            },
            Err(e) => !cfg@.ints.contains_key("redis.max_db_nums"@)
                && e is FailedToGetRelatedConfig,
        },
{
    match check_connection(manager, guid) {
        Err(e) => {
            return Err(e);
        },
        Ok(_) => {},
    }
    match get_redis_max_db_nums(cfg) {
        Ok(nums) => Ok(Response::success(Some(nums), None)),
        Err(e) => Err(e),
    }
}

/// Asks to switch the connection of `guid` to database `db`.
pub fn switch_db<C>(manager: &RedisClientManager<C>, guid: &Guid, db: u8) -> (res: Result<
    RedisCommand,
    Error,
>)
    ensures
        manager.clients().contains_key(guid@) ==> (res matches Ok(RedisCommand::Select { db: d })
            && d == db),
        !manager.clients().contains_key(guid@) ==> res matches Err(
            Error::FailedToFindExistedRedisConnection,
        ),
{
    match check_connection(manager, guid) {
        Err(e) => Err(e),
        Ok(_) => Ok(RedisCommand::Select { db }),
    }
}

/// Asks to empty every database of the connection of `guid`.
pub fn flush_all<C>(manager: &RedisClientManager<C>, guid: &Guid) -> (res: Result<
    RedisCommand,
    Error,
>)
    ensures
        manager.clients().contains_key(guid@) ==> res matches Ok(RedisCommand::FlushAll),
        !manager.clients().contains_key(guid@) ==> res matches Err(
            Error::FailedToFindExistedRedisConnection,
        ),
{
    match check_connection(manager, guid) {
        Err(e) => Err(e),
        Ok(_) => Ok(RedisCommand::FlushAll),
    }
}

/// Asks for the server's report on itself.
pub fn list_client_metrics<C>(manager: &RedisClientManager<C>, guid: &Guid) -> (res: Result<
    RedisCommand,
    Error,
>)
    ensures
        manager.clients().contains_key(guid@) ==> res matches Ok(RedisCommand::Info),
        !manager.clients().contains_key(guid@) ==> res matches Err(
            Error::FailedToFindExistedRedisConnection,
        ),
{
    match check_connection(manager, guid) {
        Err(e) => Err(e),
        Ok(_) => Ok(RedisCommand::Info),
    }
}

/// Asks for all keys that match what the user typed, in one reply.
pub fn list_all_keys<C>(
    manager: &RedisClientManager<C>,
    guid: &Guid,
    condition_part: Option<String>,
) -> (res: Result<RedisCommand, Error>)
    ensures
        manager.clients().contains_key(guid@) ==> (res matches Ok(RedisCommand::Keys { pattern })
            && pattern@ == pattern_of(condition_part)),
        !manager.clients().contains_key(guid@) ==> res matches Err(
            Error::FailedToFindExistedRedisConnection,
        ),
{
    match check_connection(manager, guid) {
        Err(e) => Err(e),
        Ok(_) => Ok(RedisCommand::Keys { pattern: scan_pattern(condition_part) }),
    }
}

/// The successful response for the keys that one reply brought.
pub fn listed_keys_response(found: Vec<Option<String>>) -> (res: Response<Vec<String>>)
    ensures
        res.status == ResponseStatus::Success,
        res.message@ == default_message(),
        res.data matches Some(keys) && keys@ == text_keys(found@),
{
    let mut keys: Vec<String> = Vec::new();
    let mut i: usize = 0;
    while i < found.len()
        invariant
            i <= found.len(),
            keys@ == text_keys(found@.subrange(0, i as int)),
        decreases found.len() - i,
    {
        assert(found@.subrange(0, i + 1).drop_last() =~= found@.subrange(0, i as int));
        match &found[i] {
            Some(key) => {
                keys.push(key.clone());
            },
            None => {},
        }
        i += 1;
    }
    assert(found@.subrange(0, i as int) =~= found@);
    Response::success(Some(keys), None)
}

/// Asks to create the key `key_name` of kind `key_type`: a string key starts
/// out empty, a hash with one field. The kind is looked at first, then the
/// name, then the connection.
pub fn create_new_key<C>(
    manager: &RedisClientManager<C>,
    guid: &Guid,
    key_name: String,
    key_type: RedisKeyType,
) -> (res: Result<RedisCommand, Error>)
    ensures
        key_type == RedisKeyType::Unknown ==> res matches Err(Error::InvalidRedisKeyType),
        key_type != RedisKeyType::Unknown ==> match key_refusal(manager, guid@, key_name@) {
            Some(e) => res == Err::<RedisCommand, Error>(e),
            None => match key_type {
                RedisKeyType::String => (res matches Ok(RedisCommand::SetValue { key, value })
                    && key == key_name && value@ == Seq::<char>::empty()),
                _ => (res matches Ok(RedisCommand::SetField { key, field, value }) && key
                    == key_name && field@ == "New field"@ && value@ == "New Value"@),
            },
        },
{
    if !key_type.is_valid() {
        return Err(Error::InvalidRedisKeyType);
    }
    match check_key(manager, guid, &key_name) {
        Err(e) => {
            return Err(e);
        },
        Ok(_) => {},
    }
    match key_type {
        RedisKeyType::String => Ok(RedisCommand::SetValue { key: key_name, value: String::new() }),
        _ => Ok(
            RedisCommand::SetField {
                key: key_name,
                field: String::from_str("New field"),
                value: String::from_str("New Value"),
            },
        ),
    }
}

/// Asks to delete the key `key_name`.
pub fn remove_key<C>(manager: &RedisClientManager<C>, guid: &Guid, key_name: String) -> (res:
    Result<RedisCommand, Error>)
    ensures
        match key_refusal(manager, guid@, key_name@) {
            Some(e) => res == Err::<RedisCommand, Error>(e),
            None => (res matches Ok(RedisCommand::Del { key }) && key == key_name),
        },
{
    match check_key(manager, guid, &key_name) {
        Err(e) => Err(e),
        Ok(_) => Ok(RedisCommand::Del { key: key_name }),
    }
}

/// Asks for the kind of the key `key_name`.
pub fn get_key_type<C>(manager: &RedisClientManager<C>, guid: &Guid, key_name: String) -> (res:
    Result<RedisCommand, Error>)
    ensures
        match key_refusal(manager, guid@, key_name@) {
            Some(e) => res == Err::<RedisCommand, Error>(e),
            None => (res matches Ok(RedisCommand::Type { key }) && key == key_name),
        },
{
    match check_key(manager, guid, &key_name) {
        Err(e) => Err(e),
        Ok(_) => Ok(RedisCommand::Type { key: key_name }),
    }
}

/// The successful response for the kind that the server named.
pub fn key_type_response(named: &str) -> (res: Response<RedisKeyType>)
    ensures
        res.status == ResponseStatus::Success,
        res.message@ == default_message(),
        res.data == Some(key_type_named(lowercase_of(named@))),
{
    Response::success(Some(RedisKeyType::from(named)), None)
}

/// Asks for the time the key `key_name` has left to live.
pub fn get_key_ttl<C>(manager: &RedisClientManager<C>, guid: &Guid, key_name: String) -> (res:
    Result<RedisCommand, Error>)
    ensures
        match key_refusal(manager, guid@, key_name@) {
            Some(e) => res == Err::<RedisCommand, Error>(e),
            None => (res matches Ok(RedisCommand::Ttl { key }) && key == key_name),
        },
{
    match check_key(manager, guid, &key_name) {
        Err(e) => Err(e),
        Ok(_) => Ok(RedisCommand::Ttl { key: key_name }),
    }
}

/// Asks to give the key `key_name` `ttl` seconds to live.
pub fn set_key_ttl<C>(manager: &RedisClientManager<C>, guid: &Guid, key_name: String, ttl: TTL) -> (res:
    Result<RedisCommand, Error>)
    ensures
        match key_refusal(manager, guid@, key_name@) {
            Some(e) => res == Err::<RedisCommand, Error>(e),
            None => (res matches Ok(RedisCommand::Expire { key, ttl: t }) && key == key_name && t
                == ttl),
        },
{
    match check_key(manager, guid, &key_name) {
        Err(e) => Err(e),
        Ok(_) => Ok(RedisCommand::Expire { key: key_name, ttl }),
    }
}

/// Asks to rename the key `key_name` to `new_key_name`. Neither name may be
/// empty.
pub fn rename_key<C>(
    manager: &RedisClientManager<C>,
    guid: &Guid,
    key_name: String,
    new_key_name: String,
) -> (res: Result<RedisCommand, Error>)
    ensures
        key_name@.len() == 0 || new_key_name@.len() == 0 ==> res matches Err(
            Error::InvalidRedisKeyName,
        ),
        key_name@.len() > 0 && new_key_name@.len() > 0 ==> match key_refusal(
            manager,
            guid@,
            key_name@,
        ) {
            Some(e) => res == Err::<RedisCommand, Error>(e),
            None => (res matches Ok(RedisCommand::Rename { key, new_key }) && key == key_name
                && new_key == new_key_name),
        },
{
    if new_key_name.as_str().is_empty() {
        return Err(Error::InvalidRedisKeyName);
    }
    match check_key(manager, guid, &key_name) {
        Err(e) => Err(e),
        Ok(_) => Ok(RedisCommand::Rename { key: key_name, new_key: new_key_name }),
    }
}

/// Asks for the text kept under the key `key_name`.
pub fn get_key_content_type_string<C>(
    manager: &RedisClientManager<C>,
    guid: &Guid,
    key_name: String,
) -> (res: Result<RedisCommand, Error>)
    ensures
        match key_refusal(manager, guid@, key_name@) {
            Some(e) => res == Err::<RedisCommand, Error>(e),
            None => (res matches Ok(RedisCommand::Get { key }) && key == key_name),
        },
{
    match check_key(manager, guid, &key_name) {
        Err(e) => Err(e),
        Ok(_) => Ok(RedisCommand::Get { key: key_name }),
    }
}

/// Asks to keep `content` under the key `key_name`.
pub fn set_key_content_type_string<C>(
    manager: &RedisClientManager<C>,
    guid: &Guid,
    key_name: String,
    content: String,
) -> (res: Result<RedisCommand, Error>)
    ensures
        match key_refusal(manager, guid@, key_name@) {
            Some(e) => res == Err::<RedisCommand, Error>(e),
            None => (res matches Ok(RedisCommand::SetValue { key, value }) && key == key_name
                && value == content),
        },
{
    match check_key(manager, guid, &key_name) {
        Err(e) => Err(e),
        Ok(_) => Ok(RedisCommand::SetValue { key: key_name, value: content }),
    }
}

/// Asks for all fields of the hash `key_name`.
pub fn get_key_content_type_hash<C>(
    manager: &RedisClientManager<C>,
    guid: &Guid,
    key_name: String,
) -> (res: Result<RedisCommand, Error>)
    ensures
        match key_refusal(manager, guid@, key_name@) {
            Some(e) => res == Err::<RedisCommand, Error>(e),
            None => (res matches Ok(RedisCommand::GetFields { key }) && key == key_name),
        },
{
    match check_key(manager, guid, &key_name) {
        Err(e) => Err(e),
        Ok(_) => Ok(RedisCommand::GetFields { key: key_name }),
    }
}

} // verus!
