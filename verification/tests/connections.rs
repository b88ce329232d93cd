use tauri_redis::client::RedisClient;
use tauri_redis::command::{ConnectionInfo, RedisClientConnectionPayload, SaveConnectionPayload};
use tauri_redis::connections::{
    invoke_establish_connection, invoke_find_connection, invoke_release_connection,
    invoke_remove_connection, invoke_save_connection, release_connection_at, save_connection_at,
    Establish,
};
use tauri_redis::error::Error;
use tauri_redis::guid::{gen_uuid, get_cur_time, judge_guid_valid, judge_parsed_guid};
use tauri_redis::manager::RedisClientManager;

const FIRST: &str = "02f09a3f-1624-3b1d-8409-44eff7708208";
const SECOND: &str = "67e55044-10b1-426f-9247-bb680e5fe0c8";
const UNKNOWN: &str = "936da01f-9abd-4d9d-80c7-02af85c822a8";
// The ninth byte begins with the bits 111.
const FUTURE: &str = "67e55044-10b1-426f-e247-bb680e5fe0c8";
// The ninth byte begins with the bit 0.
const NCS: &str = "67e55044-10b1-426f-1247-bb680e5fe0c8";
// The ninth byte begins with the bits 110.
const MICROSOFT: &str = "67e55044-10b1-426f-c247-bb680e5fe0c8";

fn profile(guid: &str, name: &str) -> ConnectionInfo {
    ConnectionInfo {
        connection_name: name.to_string(),
        host: "localhost".to_string(),
        port: 6379,
        username: "user".to_string(),
        password: "secret".to_string(),
        separator: ":".to_string(),
        readonly: false,
        created_at: "2023-01-01T00:00:00+00:00".to_string(),
        updated_at: None,
        connected_at: None,
        guid: guid.to_string(),
    }
}

fn profiles() -> Vec<ConnectionInfo> {
    vec![profile(FIRST, "first"), profile(SECOND, "second")]
}

#[test]
fn guids_are_judged_by_text_and_variant() {
    assert!(matches!(judge_guid_valid(&FIRST.to_string()), Ok(true)));
    assert!(matches!(judge_guid_valid(&NCS.to_string()), Ok(true)));
    assert!(matches!(judge_guid_valid(&MICROSOFT.to_string()), Ok(true)));
    assert!(matches!(judge_guid_valid(&FUTURE.to_string()), Err(Error::InvalidGuid)));
    assert!(matches!(judge_guid_valid(&"c1".to_string()), Err(Error::InvalidGuid)));
    assert!(matches!(judge_guid_valid(&String::new()), Err(Error::InvalidGuid)));
    // The text parses to other bits than its own characters.
    assert!(matches!(
        judge_guid_valid(&"ffffffff-ffff-ffff-ffff-ffffffffffff".to_string()),
        Err(Error::InvalidGuid)
    ));
    assert!(matches!(
        judge_guid_valid(&"00000000-0000-0000-0000-000000000000".to_string()),
        Ok(true)
    ));
}

#[test]
fn parsed_guids_are_judged_by_the_ninth_byte() {
    assert!(matches!(judge_parsed_guid(None), Err(Error::InvalidGuid)));
    assert!(matches!(judge_parsed_guid(Some(0)), Ok(true)));
    assert!(matches!(judge_parsed_guid(Some(0x80u128 << 56)), Ok(true)));
    assert!(matches!(judge_parsed_guid(Some(0xc0u128 << 56)), Ok(true)));
    assert!(matches!(judge_parsed_guid(Some(0xdfu128 << 56)), Ok(true)));
    assert!(matches!(judge_parsed_guid(Some(0xe0u128 << 56)), Err(Error::InvalidGuid)));
    assert!(matches!(judge_parsed_guid(Some(u128::MAX)), Err(Error::InvalidGuid)));
    // Only the ninth byte counts.
    assert!(matches!(judge_parsed_guid(Some(0xe0u128 << 64)), Ok(true)));
    assert!(matches!(judge_parsed_guid(Some(0xe0u128 << 48)), Ok(true)));
}

#[test]
fn new_guids_are_valid_and_differ() {
    let a = gen_uuid();
    let b = gen_uuid();
    assert_ne!(a, b);
    assert_eq!(a.len(), 36);
    assert!(matches!(judge_guid_valid(&a), Ok(true)));
    assert!(!get_cur_time().is_empty());
}

#[test]
fn find_looks_at_the_guid_first() {
    let infos = profiles();
    assert!(matches!(invoke_find_connection(&infos, &FIRST.to_string()), Ok(0)));
    assert!(matches!(invoke_find_connection(&infos, &SECOND.to_string()), Ok(1)));
    assert!(matches!(
        invoke_find_connection(&infos, &UNKNOWN.to_string()),
        Err(Error::FailedToFindTheMatchedConnectionInfo)
    ));
    assert!(matches!(
        invoke_find_connection(&infos, &"first".to_string()),
        Err(Error::InvalidGuid)
    ));
    assert!(matches!(
        invoke_find_connection(&Vec::new(), &FIRST.to_string()),
        Err(Error::FailedToFindTheMatchedConnectionInfo)
    ));
    // Of two profiles with one guid the first is found.
    let twice = vec![profile(SECOND, "a"), profile(FIRST, "b"), profile(FIRST, "c")];
    assert!(matches!(invoke_find_connection(&twice, &FIRST.to_string()), Ok(1)));
}

#[test]
fn save_without_guid_appends_a_profile() {
    let payload = SaveConnectionPayload {
        connection_name: Some("third".to_string()),
        host: "redis.example".to_string(),
        port: 6380,
        username: None,
        password: Some("pw".to_string()),
        separator: None,
        readonly: None,
        guid: None,
    };
    let saved = save_connection_at(
        profiles(),
        payload,
        UNKNOWN.to_string(),
        "2024-05-05T10:00:00+02:00".to_string(),
    )
    .unwrap();
    assert_eq!(saved.len(), 3);
    assert_eq!(saved[0].connection_name, "first");
    assert_eq!(saved[1].connection_name, "second");
    let made = &saved[2];
    assert_eq!(made.guid, UNKNOWN);
    assert_eq!(made.created_at, "2024-05-05T10:00:00+02:00");
    assert_eq!(made.connection_name, "third");
    assert_eq!(made.host, "redis.example");
    assert_eq!(made.port, 6380);
    assert_eq!(made.username, "");
    assert_eq!(made.password, "pw");
    assert_eq!(made.separator, "");
    assert!(!made.readonly);
    assert_eq!(made.updated_at, None);
    assert_eq!(made.connected_at, None);
}

#[test]
fn save_with_guid_edits_in_place() {
    let payload = SaveConnectionPayload {
        connection_name: None,
        host: "other.example".to_string(),
        port: 7000,
        username: Some("admin".to_string()),
        password: None,
        separator: Some("/".to_string()),
        readonly: Some(true),
        guid: Some(FIRST.to_string()),
    };
    let saved = save_connection_at(
        profiles(),
        payload,
        UNKNOWN.to_string(),
        "2024-05-05T10:00:00+02:00".to_string(),
    )
    .unwrap();
    assert_eq!(saved.len(), 2);
    let edited = &saved[0];
    assert_eq!(edited.guid, FIRST);
    assert_eq!(edited.connection_name, "first");
    assert_eq!(edited.host, "other.example");
    assert_eq!(edited.port, 7000);
    assert_eq!(edited.username, "admin");
    assert_eq!(edited.password, "secret");
    assert_eq!(edited.separator, "/");
    assert!(edited.readonly);
    assert_eq!(edited.created_at, "2023-01-01T00:00:00+00:00");
    assert_eq!(edited.updated_at, Some("2024-05-05T10:00:00+02:00".to_string()));
    assert_eq!(edited.connected_at, None);
    assert_eq!(saved[1].connection_name, "second");
    assert_eq!(saved[1].updated_at, None);
}

#[test]
fn save_with_bad_or_unknown_guid_is_refused() {
    let mut payload = SaveConnectionPayload::default();
    payload.guid = Some("nope".to_string());
    let res = save_connection_at(profiles(), payload, UNKNOWN.to_string(), "now".to_string());
    assert!(matches!(res, Err(Error::InvalidGuid)));

    let mut payload = SaveConnectionPayload::default();
    payload.guid = Some(UNKNOWN.to_string());
    let res = save_connection_at(profiles(), payload, FIRST.to_string(), "now".to_string());
    assert!(matches!(res, Err(Error::FailedToFindTheMatchedConnectionInfo)));
}

#[test]
fn save_makes_its_own_guid_and_time() {
    let saved = invoke_save_connection(profiles(), SaveConnectionPayload::default()).unwrap();
    assert_eq!(saved.len(), 3);
    assert!(matches!(judge_guid_valid(&saved[2].guid), Ok(true)));
    assert!(!saved[2].created_at.is_empty());
    assert_ne!(saved[2].guid, FIRST);

    let mut payload = SaveConnectionPayload::default();
    payload.host = "h".to_string();
    payload.guid = Some(SECOND.to_string());
    let saved = invoke_save_connection(profiles(), payload).unwrap();
    assert_eq!(saved.len(), 2);
    assert_eq!(saved[1].host, "h");
    assert!(saved[1].updated_at.is_some());
    assert_eq!(saved[0].updated_at, None);
}

#[test]
fn remove_takes_the_profile_out() {
    let left = invoke_remove_connection(profiles(), &FIRST.to_string()).unwrap();
    assert_eq!(left.len(), 1);
    assert_eq!(left[0].guid, SECOND);
    assert!(matches!(
        invoke_remove_connection(profiles(), &UNKNOWN.to_string()),
        Err(Error::FailedToFindTheMatchedConnectionInfo)
    ));
    assert!(matches!(
        invoke_remove_connection(profiles(), &"x".to_string()),
        Err(Error::InvalidGuid)
    ));
}

#[test]
fn establish_hands_out_what_to_connect_with() {
    let infos = profiles();
    let mut manager: RedisClientManager<()> = RedisClientManager::new();
    let guid = FIRST.to_string();
    match invoke_establish_connection(&infos, &mut manager, &guid).unwrap() {
        Establish::Connect(payload) => {
            assert_eq!(payload.host, "localhost");
            assert_eq!(payload.port, 6379);
            assert_eq!(payload.username, Some("user".to_string()));
            assert_eq!(payload.password, Some("secret".to_string()));
            assert_eq!(payload.guid, FIRST);
        }
        Establish::Connected => panic!("nothing was connected"),
    }
    assert!(manager.judge_pending(&guid));
    // A second attempt while the first is under way.
    assert!(matches!(
        invoke_establish_connection(&infos, &mut manager, &guid),
        Err(Error::AlreadyAPendingRedisConnection)
    ));
    manager.record_new_client(guid.clone(), RedisClient::new(())).unwrap();
    manager.release_pending(&guid);
    assert!(!manager.judge_pending(&guid));
    assert!(matches!(
        invoke_establish_connection(&infos, &mut manager, &guid),
        Ok(Establish::Connected)
    ));
    assert!(!manager.judge_pending(&guid));

    assert!(matches!(
        invoke_establish_connection(&infos, &mut manager, &UNKNOWN.to_string()),
        Err(Error::FailedToFindTheMatchedConnectionInfo)
    ));
    assert!(matches!(
        invoke_establish_connection(&infos, &mut manager, &"bad".to_string()),
        Err(Error::InvalidGuid)
    ));
}

#[test]
fn release_notes_the_time_and_forgets_the_connection() {
    let guid = FIRST.to_string();
    let mut manager: RedisClientManager<()> = RedisClientManager::new();
    // Not connected.
    let res = release_connection_at(profiles(), &mut manager, &guid, Ok(()), "t".to_string());
    assert!(matches!(res, Err(Error::FailedToFindExistedRedisConnection)));

    manager.record_new_client(guid.clone(), RedisClient::new(())).unwrap();
    // The transport failed to close: the connection stays.
    let res = release_connection_at(
        profiles(),
        &mut manager,
        &guid,
        Err("broken pipe".to_string()),
        "t".to_string(),
    );
    match res {
        Err(Error::RedisInternalError(message)) => assert_eq!(message, "broken pipe"),
        _ => panic!("the failure was not reported"),
    }
    assert!(manager.contains_key(&guid));

    let noted =
        release_connection_at(profiles(), &mut manager, &guid, Ok(()), "t1".to_string()).unwrap();
    assert_eq!(noted[0].connected_at, Some("t1".to_string()));
    assert_eq!(noted[1].connected_at, None);
    assert_eq!(noted[0].connection_name, "first");
    assert!(!manager.contains_key(&guid));

    manager.record_new_client(SECOND.to_string(), RedisClient::new(())).unwrap();
    let noted =
        invoke_release_connection(profiles(), &mut manager, &SECOND.to_string(), Ok(())).unwrap();
    assert!(noted[1].connected_at.is_some());
    assert_eq!(manager.len(), 0);

    let res = invoke_release_connection(profiles(), &mut manager, &"bad".to_string(), Ok(()));
    assert!(matches!(res, Err(Error::InvalidGuid)));
    let res = invoke_release_connection(profiles(), &mut manager, &UNKNOWN.to_string(), Ok(()));
    assert!(matches!(res, Err(Error::FailedToFindTheMatchedConnectionInfo)));
}

#[test]
fn registry_keeps_the_first_connection_of_a_guid() {
    let mut manager: RedisClientManager<u8> = RedisClientManager::new();
    let guid = "c1".to_string();
    assert_eq!(manager.len(), 0);
    assert!(manager.get(&guid).is_none());
    manager.record_new_client(guid.clone(), RedisClient::new(1)).unwrap();
    manager.record_new_client(guid.clone(), RedisClient::new(2)).unwrap();
    manager.record_new_client("c2".to_string(), RedisClient::new(3)).unwrap();
    assert_eq!(manager.len(), 2);
    assert_eq!(*manager.get(&guid).unwrap().conn(), 1);
    assert_eq!(*manager.get(&"c2".to_string()).unwrap().conn(), 3);

    assert!(matches!(
        manager.release_client(&"c3".to_string(), Ok(())),
        Err(Error::FailedToFindExistedRedisConnection)
    ));
    manager.release_client(&guid, Ok(())).unwrap();
    assert!(!manager.contains_key(&guid));
    assert!(manager.contains_key(&"c2".to_string()));
}

#[test]
fn pending_marks_are_set_once_and_released() {
    let mut manager: RedisClientManager<()> = RedisClientManager::new();
    let a = "a".to_string();
    let b = "b".to_string();
    assert!(!manager.judge_pending(&a));
    manager.mark_as_pending(&a);
    manager.mark_as_pending(&a);
    manager.mark_as_pending(&b);
    assert!(manager.judge_pending(&a));
    manager.release_pending(&a);
    // One release is enough, however often the mark was set.
    assert!(!manager.judge_pending(&a));
    assert!(manager.judge_pending(&b));
    manager.release_pending(&a);
    assert!(manager.judge_pending(&b));

    assert!(manager.invoke_new_client(&a).is_ok());
    assert!(matches!(
        manager.invoke_new_client(&a),
        Err(Error::AlreadyAPendingRedisConnection)
    ));
    assert!(matches!(manager.new_client(&a), Err(Error::AlreadyAPendingRedisConnection)));
    manager.release_pending(&a);
    assert!(matches!(manager.new_client(&a), Ok(false)));
    assert!(manager.judge_pending(&a));
    manager.record_new_client(a.clone(), RedisClient::new(())).unwrap();
    manager.release_pending(&a);
    assert!(matches!(manager.new_client(&a), Ok(true)));
    assert!(!manager.judge_pending(&a));
}

#[test]
fn empty_credentials_count_as_none() {
    let payload = RedisClientConnectionPayload {
        host: "h".to_string(),
        port: 1,
        username: Some(String::new()),
        password: Some("pw".to_string()),
        guid: "g".to_string(),
    };
    let settings = payload.into_settings(7);
    assert_eq!(settings.host, "h");
    assert_eq!(settings.port, 1);
    assert_eq!(settings.username, None);
    assert_eq!(settings.password, Some("pw".to_string()));
    assert_eq!(settings.connection_timeout, 7);
    assert_eq!(settings.internal_command_timeout, 7);

    let settings = RedisClientConnectionPayload::default().into_settings(255);
    assert_eq!(settings.username, None);
    assert_eq!(settings.password, None);
    assert_eq!(settings.connection_timeout, 255);
}
