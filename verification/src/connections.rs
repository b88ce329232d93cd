//! The connection commands: what they do to the list of saved profiles and
//! to the registry of live connections.

use vstd::prelude::*;
use crate::cache::{FileCache, FileCacheManager, FileCacheModel, FileWrite};
use crate::client::Guid;
use crate::config::{
    get_connections_file_cache_manager_key, get_connections_file_name,
    get_miscs_file_cache_manager_key, get_miscs_file_name, CrateConfig,
};
use crate::json::{json_of, json_pretty};
use crate::text::opt_text;
use crate::command::{
    profiles, ConnectionInfo, ConnectionModel, RedisClientConnectionPayload,
    SaveConnectionPayload, SavePayloadModel,
};
use crate::error::Error;
use crate::guid::{gen_uuid, get_cur_time, guid_accepted, judge_guid_valid, parsed_guid};
use crate::manager::RedisClientManager;

verus! {

/// The place of the first profile with this identifier, or the number of
/// profiles where there is none.
pub open spec fn first_with_guid(infos: Seq<ConnectionModel>, guid: Seq<char>) -> int
    decreases infos.len(),
{
    if infos.len() == 0 {
        0
    } else if infos[0].guid == guid {
        0
    } else {
        1 + first_with_guid(infos.drop_first(), guid)
    }
}

/// `first_with_guid` names the first profile with the identifier.
pub proof fn lemma_first_with_guid(infos: Seq<ConnectionModel>, guid: Seq<char>)
    ensures
        0 <= first_with_guid(infos, guid) <= infos.len(),
        first_with_guid(infos, guid) < infos.len() ==> infos[first_with_guid(infos, guid)].guid
            == guid,
        forall|i: int| 0 <= i < first_with_guid(infos, guid) ==> infos[i].guid != guid,
    decreases infos.len(),
{
    if infos.len() > 0 && infos[0].guid != guid {
        let rest = infos.drop_first();
        lemma_first_with_guid(rest, guid);
        assert forall|i: int| 0 <= i < first_with_guid(infos, guid) implies infos[i].guid
            != guid by {
            if i > 0 {
                assert(rest[i - 1] == infos[i]);
            }
        }
    }
}

/// Looks a profile up by its identifier. The identifier is judged first: an
/// invalid one is refused whatever the list holds. The place of the first
/// profile that carries it is returned.
pub fn invoke_find_connection(connections_info: &Vec<ConnectionInfo>, guid: &Guid) -> (res: Result<
    usize,
    Error,
>)
    ensures
        match res {
            Ok(place) => {
                &&& guid_accepted(parsed_guid(guid@))
                &&& place < connections_info.len()
                &&& place == first_with_guid(profiles(connections_info@), guid@)
            },
            Err(e) => if guid_accepted(parsed_guid(guid@)) {
                &&& e == Error::FailedToFindTheMatchedConnectionInfo
                &&& first_with_guid(profiles(connections_info@), guid@) == connections_info.len()
            } else {
                e == Error::InvalidGuid
            },
        },
{
    match judge_guid_valid(guid) {
        Err(e) => {
            return Err(e);
        },
        Ok(_) => {},
    }
    let ghost models = profiles(connections_info@);
    let mut i: usize = 0;
    while i < connections_info.len()
        invariant
            i <= connections_info.len(),
            models == profiles(connections_info@),
            models.len() == connections_info.len(),
            guid_accepted(parsed_guid(guid@)),
            forall|k: int| 0 <= k < i ==> models[k].guid != guid@,
        decreases connections_info.len() - i,
    {
        assert(models[i as int] == connections_info@[i as int]@);
        if connections_info[i].guid == *guid {
            proof {
                lemma_first_with_guid(models, guid@);
                let place = first_with_guid(models, guid@);
                assert(models[i as int].guid == guid@);
                if place < i {
                    assert(models[place].guid != guid@);
                }
                assert(place == i);
            }
            return Ok(i);
        }
        i += 1;
    }
    proof {
        lemma_first_with_guid(models, guid@);
        let place = first_with_guid(models, guid@);
        if place < models.len() {
            assert(models[place].guid != guid@);
        }
    }
    Err(Error::FailedToFindTheMatchedConnectionInfo)
}

/// The text, or the fallback where there is none.
pub open spec fn text_or(text: Option<Seq<char>>, fallback: Seq<char>) -> Seq<char> {
    match text {
        Some(t) => t,
        None => fallback,
    }
}

/// A profile after an edit: host and port are taken from the request, the
/// other settings only where the request names them, and the time of the
/// edit is noted. Identifier and the other times stay.
pub open spec fn edited_profile(
    found: ConnectionModel,
    info: SavePayloadModel,
    now: Seq<char>,
) -> ConnectionModel {
    ConnectionModel {
        connection_name: text_or(info.connection_name, found.connection_name),
        host: info.host,
        port: info.port,
        username: text_or(info.username, found.username),
        password: text_or(info.password, found.password),
        separator: text_or(info.separator, found.separator),
        readonly: match info.readonly {
            Some(r) => r,
            None => found.readonly,
        },
        updated_at: Some(now),
        ..found
    }
}

/// A new profile: the request's settings, empty where it names none, under a
/// new identifier, created now, never edited and never connected.
pub open spec fn created_profile(info: SavePayloadModel, guid: Seq<char>, now: Seq<char>) -> ConnectionModel {
    ConnectionModel {
        connection_name: text_or(info.connection_name, Seq::empty()),
        host: info.host,
        port: info.port,
        username: text_or(info.username, Seq::empty()),
        password: text_or(info.password, Seq::empty()),
        separator: text_or(info.separator, Seq::empty()),
        readonly: match info.readonly {
            Some(r) => r,
            None => false,
        },
        created_at: now,
        updated_at: None,
        connected_at: None,
        guid,
    }
}

/// The list of profiles after a save request, or why it is refused. A request
/// with an identifier edits the first profile that carries it, in place; the
/// identifier has to be valid and known. A request without one appends a new
/// profile.
pub open spec fn saved_profiles(
    infos: Seq<ConnectionModel>,
    info: SavePayloadModel,
    new_guid: Seq<char>,
    now: Seq<char>,
) -> Result<Seq<ConnectionModel>, Error> {
    match info.guid {
        Some(guid) => {
            let place = first_with_guid(infos, guid);
            if !guid_accepted(parsed_guid(guid)) {
                Err(Error::InvalidGuid)
            } else if place >= infos.len() {
                Err(Error::FailedToFindTheMatchedConnectionInfo)
            } else {
                Ok(infos.update(place, edited_profile(infos[place], info, now)))
            }
        },
        None => Ok(infos.push(created_profile(info, new_guid, now))),
    }
}

/// The text, or a copy of the fallback where there is none.
fn take_or(text: Option<String>, fallback: &String) -> (res: String)
    ensures
        res@ == text_or(opt_text(text), fallback@),
{
    match text {
        Some(t) => t,
        None => fallback.clone(),
    }
}

/// The text, or the empty text where there is none.
fn take_or_empty(text: Option<String>) -> (res: String)
    ensures
        res@ == text_or(opt_text(text), Seq::empty()),
{
    match text {
        Some(t) => t,
        None => String::new(),
    }
}

/// Applies a save request to the list of profiles. `new_guid` is the
/// identifier for a profile that is created, `now` the time to note.
pub fn save_connection_at(
    connections_info: Vec<ConnectionInfo>,
    info: SaveConnectionPayload,
    new_guid: Guid,
    now: String,
) -> (res: Result<Vec<ConnectionInfo>, Error>)
    ensures
        match saved_profiles(profiles(connections_info@), info@, new_guid@, now@) {
            Ok(saved) => res is Ok && profiles(res->Ok_0@) == saved,
            Err(e) => res == Err::<Vec<ConnectionInfo>, Error>(e),
        },
{
    let mut connections_info = connections_info;
    let ghost before = profiles(connections_info@);
    let SaveConnectionPayload {
        connection_name,
        host,
        port,
        username,
        password,
        separator,
        readonly,
        guid,
    } = info;
    match guid {
        Some(guid) => {
            let place = match invoke_find_connection(&connections_info, &guid) {
                Ok(place) => place,
                Err(e) => {
                    return Err(e);
                },
            };
            let found = connections_info.remove(place);
            let edited = ConnectionInfo {
                connection_name: take_or(connection_name, &found.connection_name),
                host,
                port,
                username: take_or(username, &found.username),
                password: take_or(password, &found.password),
                separator: take_or(separator, &found.separator),
                readonly: match readonly {
                    Some(r) => r,
                    None => found.readonly,
                },
                created_at: found.created_at,
                updated_at: Some(now),
                connected_at: found.connected_at,
                guid: found.guid,
            };
            connections_info.insert(place, edited);
            assert(profiles(connections_info@) =~= before.update(
                place as int,
                edited_profile(before[place as int], info@, now@),
            ));
            Ok(connections_info)
        },
        None => {
            let created = ConnectionInfo {
                guid: new_guid,
                created_at: now,
                connection_name: take_or_empty(connection_name),
                host,
                port,
                separator: take_or_empty(separator),
                username: take_or_empty(username),
                password: take_or_empty(password),
                readonly: match readonly {
                    Some(r) => r,
                    None => false,
                },
                updated_at: None,
                connected_at: None,
            };
            connections_info.push(created);
            assert(profiles(connections_info@) =~= before.push(
                created_profile(info@, new_guid@, now@),
            ));
            Ok(connections_info)
        },
    }
}

/// Applies a save request to the list of profiles, with a newly made
/// identifier for a profile that is created and the time of the call as the
/// time to note. The new identifier is one that is accepted when it comes
/// back in a later request.
pub fn invoke_save_connection(connections_info: Vec<ConnectionInfo>, info: SaveConnectionPayload) -> (res:
    Result<Vec<ConnectionInfo>, Error>)
    ensures
        exists|new_guid: Seq<char>, now: Seq<char>|
            guid_accepted(parsed_guid(new_guid)) && match #[trigger] saved_profiles(
                profiles(connections_info@),
                info@,
                new_guid,
                now,
            ) {
                Ok(saved) => res is Ok && profiles(res->Ok_0@) == saved,
                Err(e) => res == Err::<Vec<ConnectionInfo>, Error>(e),
            },
{
    let now = get_cur_time();
    let new_guid = gen_uuid();
    let ghost g = new_guid@;
    let ghost t = now@;
    let res = save_connection_at(connections_info, info, new_guid, now);
    assert(guid_accepted(parsed_guid(g)) && match saved_profiles(
        profiles(connections_info@),
        info@,
        g,
        t,
    ) {
        Ok(saved) => res is Ok && profiles(res->Ok_0@) == saved,
        Err(e) => res == Err::<Vec<ConnectionInfo>, Error>(e),
    });
    res
}

/// The list of profiles without the first one that carries the identifier,
/// or why the removal is refused: the identifier has to be valid and known.
pub open spec fn profiles_without(infos: Seq<ConnectionModel>, guid: Seq<char>) -> Result<
    Seq<ConnectionModel>,
    Error,
> {
    let place = first_with_guid(infos, guid);
    if !guid_accepted(parsed_guid(guid)) {
        Err(Error::InvalidGuid)
    } else if place >= infos.len() {
        Err(Error::FailedToFindTheMatchedConnectionInfo)
    } else {
        Ok(infos.remove(place))
    }
}

/// Removes the profile of `guid` from the list.
pub fn invoke_remove_connection(connections_info: Vec<ConnectionInfo>, guid: &Guid) -> (res: Result<
    Vec<ConnectionInfo>,
    Error,
>)
    ensures
        match profiles_without(profiles(connections_info@), guid@) {
            Ok(left) => res is Ok && profiles(res->Ok_0@) == left,
            Err(e) => res == Err::<Vec<ConnectionInfo>, Error>(e),
        },
{
    let mut connections_info = connections_info;
    let ghost before = profiles(connections_info@);
    let place = match invoke_find_connection(&connections_info, guid) {
        Ok(place) => place,
        Err(e) => {
            return Err(e);
        },
    };
    connections_info.remove(place);
    assert(profiles(connections_info@) =~= before.remove(place as int));
    Ok(connections_info)
}

/// What a request to open the connection of a profile has to do.
#[derive(Debug)]
pub enum Establish {
    /// A connection is registered already: nothing to do.
    Connected,
    /// Open a connection with this, register it with `record_new_client`,
    /// and call `release_pending` however the attempt ended.
    Connect(RedisClientConnectionPayload),
}

/// Decides how to open the connection of the profile of `guid`. The profile
/// has to exist under a valid identifier. Where the connection is registered
/// nothing is left to do. Otherwise the attempt is noted as pending, unless
/// one is under way already, and the profile's settings are handed out to
/// connect with.
pub fn invoke_establish_connection<C>(
    connections_info: &Vec<ConnectionInfo>,
    manager: &mut RedisClientManager<C>,
    guid: &Guid,
) -> (res: Result<Establish, Error>)
    ensures
        final(manager).clients() == old(manager).clients(),
        match profiles_without(profiles(connections_info@), guid@) {
            Err(e) => res == Err::<Establish, Error>(e) && final(manager).pending() == old(manager).pending(),
            Ok(_) => {
                let found = profiles(connections_info@)[first_with_guid(
                    profiles(connections_info@),
                    guid@,
                )];
                if old(manager).clients().contains_key(guid@) {
                    res matches Ok(Establish::Connected) && final(manager).pending() == old(manager).pending()
                } else if old(manager).pending().contains(guid@) {
                    res == Err::<Establish, Error>(Error::AlreadyAPendingRedisConnection)
                        && final(manager).pending() == old(manager).pending()
                } else {
                    &&& final(manager).pending() == old(manager).pending().insert(guid@)
                    &&& res matches Ok(Establish::Connect(payload))
                    &&& payload.host@ == found.host
                    &&& payload.port == found.port
                    &&& opt_text(payload.username) == Some(found.username)
                    &&& opt_text(payload.password) == Some(found.password)
                    &&& payload.guid@ == guid@
                }
            },
        },
{
    let place = match invoke_find_connection(connections_info, guid) {
        Ok(place) => place,
        Err(e) => {
            return Err(e);
        },
    };
    if manager.contains_key(guid) {
        return Ok(Establish::Connected);
    }
    match manager.invoke_new_client(guid) {
        Err(e) => {
            return Err(e);
        },
        Ok(_) => {},
    }
    let found = &connections_info[place];
    Ok(
        Establish::Connect(
            RedisClientConnectionPayload {
                host: found.host.clone(),
                port: found.port,
                username: Some(found.username.clone()),
                password: Some(found.password.clone()),
                guid: guid.clone(),
            },
        ),
    )
}

/// The list of profiles after the connection of `guid` was closed, given how
/// closing went, or why the request is refused. The profile has to exist
/// under a valid identifier and its connection has to be registered. A
/// connection that fails to close is reported. After a clean close the
/// profile notes the time.
pub open spec fn profiles_after_release(
    infos: Seq<ConnectionModel>,
    connected: bool,
    guid: Seq<char>,
    quit: Result<(), String>,
    now: Seq<char>,
) -> Result<Seq<ConnectionModel>, Error> {
    let place = first_with_guid(infos, guid);
    if !guid_accepted(parsed_guid(guid)) {
        Err(Error::InvalidGuid)
    } else if place >= infos.len() {
        Err(Error::FailedToFindTheMatchedConnectionInfo)
    } else if !connected {
        Err(Error::FailedToFindExistedRedisConnection)
    } else {
        match quit {
            Err(m) => Err(Error::RedisInternalError(m)),
            Ok(_) => Ok(
                infos.update(place, ConnectionModel { connected_at: Some(now), ..infos[place] }),
            ),
        }
    }
}

/// Closes the books on the connection of `guid`: the connection leaves the
/// registry and its profile notes `now` as the time. `quit` says how closing
/// the transport went. Where the request is refused nothing changes.
pub fn release_connection_at<C>(
    connections_info: Vec<ConnectionInfo>,
    manager: &mut RedisClientManager<C>,
    guid: &Guid,
    quit: Result<(), String>,
    now: String,
) -> (res: Result<Vec<ConnectionInfo>, Error>)
    ensures
        final(manager).pending() == old(manager).pending(),
        match profiles_after_release(
            profiles(connections_info@),
            old(manager).clients().contains_key(guid@),
            guid@,
            quit,
            now@,
        ) {
            Ok(noted) => res is Ok && profiles(res->Ok_0@) == noted && final(manager).clients()
                == old(manager).clients().remove(guid@),
            Err(e) => res == Err::<Vec<ConnectionInfo>, Error>(e) && final(manager).clients()
                == old(manager).clients(),
        },
{
    let mut connections_info = connections_info;
    let ghost before = profiles(connections_info@);
    let place = match invoke_find_connection(&connections_info, guid) {
        Ok(place) => place,
        Err(e) => {
            return Err(e);
        },
    };
    match manager.release_client(guid, quit) {
        Err(e) => {
            return Err(e);
        },
        Ok(_) => {},
    }
    let found = connections_info.remove(place);
    let noted = ConnectionInfo {
        connection_name: found.connection_name,
        host: found.host,
        port: found.port,
        username: found.username,
        password: found.password,
        separator: found.separator,
        readonly: found.readonly,
        created_at: found.created_at,
        updated_at: found.updated_at,
        connected_at: Some(now),
        guid: found.guid,
    };
    connections_info.insert(place, noted);
    assert(profiles(connections_info@) =~= before.update(
        place as int,
        ConnectionModel { connected_at: Some(now@), ..before[place as int] },
    ));
    Ok(connections_info)
}

/// Closes the books on the connection of `guid`, with the time of the call
/// as the time to note.
pub fn invoke_release_connection<C>(
    connections_info: Vec<ConnectionInfo>,
    manager: &mut RedisClientManager<C>,
    guid: &Guid,
    quit: Result<(), String>,
) -> (res: Result<Vec<ConnectionInfo>, Error>)
    ensures
        final(manager).pending() == old(manager).pending(),
        exists|now: Seq<char>|
            match #[trigger] profiles_after_release(
                profiles(connections_info@),
                old(manager).clients().contains_key(guid@),
                guid@,
                quit,
                now,
            ) {
                Ok(noted) => res is Ok && profiles(res->Ok_0@) == noted && final(manager).clients() == old(manager).clients().remove(guid@),
                Err(e) => res == Err::<Vec<ConnectionInfo>, Error>(e) && final(manager).clients() == old(manager).clients(),
            },
{
    let now = get_cur_time();
    let ghost t = now@;
    let res = release_connection_at(connections_info, manager, guid, quit, now);
    assert(match profiles_after_release(
        profiles(connections_info@),
        old(manager).clients().contains_key(guid@),
        guid@,
        quit,
        t,
    ) {
        Ok(noted) => res is Ok && profiles(res->Ok_0@) == noted && final(manager).clients()
            == old(manager).clients().remove(guid@),
        Err(e) => res == Err::<Vec<ConnectionInfo>, Error>(e) && final(manager).clients() == old(manager).clients(),
    });
    res
}

/// The JSON value of the connections file, to be decoded by the caller. The
/// configuration has to name the cache, the cache has to exist, and it has to
/// hold a value.
pub fn invoke_get_connections<'a>(
    file_cache_manager: &'a FileCacheManager,
    cfg: &CrateConfig,
) -> (res: Result<&'a serde_json::Value, Error>)
    ensures
        match res {
            Ok(value) => {
                &&& cfg@.strings.contains_key("connections.file_cache_manager_key"@)
                &&& file_cache_manager@.contains_key(
                    cfg@.strings["connections.file_cache_manager_key"@],
                )
                &&& file_cache_manager@[cfg@.strings["connections.file_cache_manager_key"@]]@.value
                    == Some(*value)
            },
            Err(e) => if !cfg@.strings.contains_key("connections.file_cache_manager_key"@) {
                e is FailedToGetRelatedConfig
            } else if !file_cache_manager@.contains_key(
                cfg@.strings["connections.file_cache_manager_key"@],
            ) {
                e == Error::FailedToGetCachedConnectionsInfo
            } else {
                &&& e == Error::FailedToParseCachedConnectionsInfo
                &&& file_cache_manager@[cfg@.strings["connections.file_cache_manager_key"@]]@.value is None
            },
        },
{
    let key = match get_connections_file_cache_manager_key(cfg) {
        Ok(key) => key,
        Err(e) => {
            return Err(e);
        },
    };
    let cache = match file_cache_manager.get(&key) {
        Some(cache) => cache,
        None => {
            return Err(Error::FailedToGetCachedConnectionsInfo);
        },
    };
    match cache.as_inner() {
        Some(value) => Ok(value),
        None => Err(Error::FailedToParseCachedConnectionsInfo),
    }
}

/// Takes `connections`, the profiles as one JSON value, into the cache of
/// the connections file and says what to write: the value, indented, to the
/// path that the cache noted when its load began. The configuration has to
/// name the cache and the cache has to exist; a cache that never began a
/// load cannot say where to write, but still keeps the value.
pub fn store_connections(
    file_cache_manager: &mut FileCacheManager,
    cfg: &CrateConfig,
    connections: serde_json::Value,
) -> (res: Result<FileWrite, Error>)
    ensures
        ({
            let named = cfg@.strings.contains_key("connections.file_cache_manager_key"@);
            let key = cfg@.strings["connections.file_cache_manager_key"@];
            let before = old(file_cache_manager)@;
            let after = final(file_cache_manager)@;
            if !named {
                res matches Err(e) && e is FailedToGetRelatedConfig && after == before
            } else if !before.contains_key(key) {
                res == Err::<FileWrite, Error>(Error::FailedToGetCachedConnectionsInfo) && after
                    == before
            } else {
                &&& after.dom() == before.dom()
                &&& after[key]@ == (FileCacheModel { value: Some(connections), ..before[key]@ })
                &&& forall|other: Seq<char>|
                    other != key && before.contains_key(other) ==> after[other] == before[other]
                &&& match before[key]@.filepath {
                    Some(path) => {
                        &&& res matches Ok(write)
                        &&& write.filepath@ == path
                        &&& write.content@ == json_pretty(json_of(connections))
                    },
                    None => res == Err::<FileWrite, Error>(Error::FailedToSaveConnectionInfo),
                }
            }
        }),
{
    let key = match get_connections_file_cache_manager_key(cfg) {
        Ok(key) => key,
        Err(e) => {
            return Err(e);
        },
    };
    let mut cache = match file_cache_manager.take(&key) {
        Some(cache) => cache,
        None => {
            assert(file_cache_manager@ =~= old(file_cache_manager)@);
            return Err(Error::FailedToGetCachedConnectionsInfo);
        },
    };
    let _ = cache.replace(connections);
    let written = cache.save(true);
    file_cache_manager.put(key, cache);
    assert(file_cache_manager@.dom() =~= old(file_cache_manager)@.dom());
    match written {
        Ok(write) => Ok(write),
        Err(_) => Err(Error::FailedToSaveConnectionInfo),
    }
}

/// A file that a cache is waiting for.
#[derive(Debug)]
pub struct CacheLoad {
    /// The key of the cache in the manager.
    pub key: String,
    /// The name of the file, to begin the load with.
    pub filename: String,
}

/// Sets up the caches of the connections file and of the file of odds and
/// ends, both empty and in `directory`, under the keys that the
/// configuration names. Says which files to load into them. Where both files
/// share a key, they share the cache and still both are asked for.
pub fn setup_file_cache_manager(cfg: &CrateConfig, directory: &String) -> (res: Result<
    (FileCacheManager, Vec<CacheLoad>),
    Error,
>)
    ensures
        match res {
            Ok((manager, loads)) => {
                let strings = cfg@.strings;
                &&& strings.contains_key("connections.file_cache_manager_key"@)
                &&& strings.contains_key("connections.filename"@)
                &&& strings.contains_key("miscs.file_cache_manager_key"@)
                &&& strings.contains_key("miscs.filename"@)
                &&& manager@.dom() == set![
                    strings["connections.file_cache_manager_key"@],
                    strings["miscs.file_cache_manager_key"@],
                ]
                &&& loads@.len() == 2
                &&& loads[0].key@ == strings["connections.file_cache_manager_key"@]
                &&& loads[0].filename@ == strings["connections.filename"@]
                &&& loads[1].key@ == strings["miscs.file_cache_manager_key"@]
                &&& loads[1].filename@ == strings["miscs.filename"@]
                &&& forall|key: Seq<char>| #[trigger]
                    manager@.contains_key(key) ==> manager@[key]@ == (FileCacheModel {
                        value: None,
                        directory: directory@,
                        filename: None,
                        filepath: None,
                    })
            },
            Err(e) => {
                &&& e is FailedToGetRelatedConfig
                &&& !(cfg@.strings.contains_key("connections.file_cache_manager_key"@)
                    && cfg@.strings.contains_key("connections.filename"@)
                    && cfg@.strings.contains_key("miscs.file_cache_manager_key"@)
                    && cfg@.strings.contains_key("miscs.filename"@))
            },
        },
{
    let connections_key = match get_connections_file_cache_manager_key(cfg) {
        Ok(key) => key,
        Err(e) => {
            return Err(e);
        },
    };
    let connections_file = match get_connections_file_name(cfg) {
        Ok(name) => name,
        Err(e) => {
            return Err(e);
        },
    };
    let miscs_key = match get_miscs_file_cache_manager_key(cfg) {
        Ok(key) => key,
        Err(e) => {
            return Err(e);
        },
    };
    let miscs_file = match get_miscs_file_name(cfg) {
        Ok(name) => name,
        Err(e) => {
            return Err(e);
        },
    };
    let mut manager = FileCacheManager::new();
    let mut loads: Vec<CacheLoad> = Vec::new();

    loads.push(CacheLoad { key: connections_key.clone(), filename: connections_file });
    manager.or_insert(connections_key, FileCache::new(directory.clone()));

    loads.push(CacheLoad { key: miscs_key.clone(), filename: miscs_file });
    manager.or_insert(miscs_key, FileCache::new(directory.clone()));
    assert(manager@.dom() =~= set![
        cfg@.strings["connections.file_cache_manager_key"@],
        cfg@.strings["miscs.file_cache_manager_key"@],
    ]);
    Ok((manager, loads))
}

} // verus!
