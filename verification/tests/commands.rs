use tauri_redis::client::RedisClient;
use tauri_redis::commands::{
    check_connection, check_key, create_new_key, flush_all, get_key_content_type_hash, get_key_content_type_string,
    get_key_ttl, get_key_type, key_type_response, list_all_keys, list_client_metrics,
    listed_keys_response, non_empty, remove_key, rename_key, scanned_fields_response,
    set_key_content_type_string, set_key_ttl, switch_db, RedisCommand,
};
use tauri_redis::context::{
    language_change, menu_item_click, startup_language, toggle_title, toggle_window, tray_titles,
    InternalSystemTrayMenuId, LanguageChange, TrayAction, WindowChange,
};
use tauri_redis::demo::{async_greet, greet, WebContent};
use tauri_redis::error::Error;
use tauri_redis::events::{Events, EventsNonePayload, IntoEventName};
use tauri_redis::info::RedisInfoDict;
use tauri_redis::key_type::RedisKeyType;
use tauri_redis::manager::RedisClientManager;
use tauri_redis::response::{Response, ResponseStatus};
use tauri_redis::scanner::RedisScannerResult;
use tauri_redis::setting::events::{SettingsEvents, SettingsSetPayload};
use tauri_redis::setting::state::Settings;
use tauri_redis::telemetry::{judge_page_route_visited, record_page_route_visited, Miscs};
use tauri_redis::text_map::TextMap;
use tauri_redis::translation::events::{TranslationEvents, TranslationSwitchLanguagePayload};
use tauri_redis::translation::state::Translations;

fn manager() -> (RedisClientManager<()>, String) {
    let mut manager = RedisClientManager::new();
    manager.record_new_client("c1".to_string(), RedisClient::new(())).unwrap();
    (manager, "c1".to_string())
}

#[test]
fn responses_carry_status_message_and_payload() {
    let plain: Response<u8> = Response::default();
    assert_eq!(plain.status, ResponseStatus::Success);
    assert_eq!(plain.message, "ok");
    assert_eq!(plain.data, None);

    let full = Response::success(Some(3), Some("done".to_string()));
    assert_eq!(full.status, ResponseStatus::Success);
    assert_eq!(full.message, "done");
    assert_eq!(full.data, Some(3));
    let bare: Response<u8> = Response::success(None, None);
    assert_eq!(bare.message, "ok");
    assert_eq!(bare.data, None);

    let failed = Response::failed("no".to_string(), Some(1));
    assert_eq!(failed.status, ResponseStatus::Failed);
    assert_eq!(failed.message, "no");
    assert_eq!(failed.data, Some(1));
    let warned: Response<u8> = Response::warning("hm".to_string(), None);
    assert_eq!(warned.status, ResponseStatus::Warning);
    assert_eq!(warned.message, "hm");
    assert_eq!(warned.data, None);
}

#[test]
fn errors_have_their_messages() {
    let cases = [
        (Error::InternalError, "Internal error."),
        (Error::UnexpectedIssue, "Unexpected issue."),
        (Error::InvalidGuid, "Invalid guid."),
        (Error::FailedToGetRelatedConfig("cfg".to_string()), "cfg"),
        (
            Error::FailedToGetCachedConnectionsInfo,
            "Failed to get the cached connections info.",
        ),
        (
            Error::FailedToParseCachedConnectionsInfo,
            "Failed to parse the cached connections info.",
        ),
        (Error::FailedToParseConnectionInfo, "Failed to parse the connection info."),
        (Error::FailedToSaveConnectionInfo, "Failed to save the connection info."),
        (
            Error::FailedToFindTheMatchedConnectionInfo,
            "Failed to find the matched connection info.",
        ),
        (Error::RedisInternalError("redis down".to_string()), "redis down"),
        (Error::AlreadyAPendingRedisConnection, "Already a pending redis connection."),
        (Error::SerdeJsonError("bad json".to_string()), "bad json"),
        (
            Error::FailedToFindExistedRedisConnection,
            "Failed to find existed redis connection.",
        ),
        (Error::InvalidRedisKeyType, "Invalid redis key type."),
        (Error::InvalidRedisKeyName, "Invalid redis key name."),
    ];
    for (error, text) in cases {
        assert_eq!(error.message(), text);
    }
    assert!(!Error::FailedToGetRedisScanResult.message().is_empty());
    assert!(!Error::FailedToSendHTTPRequest.message().is_empty());
    assert!(!Error::FailedToGetCachedMiscsInfo.message().is_empty());
    assert!(!Error::FailedToParseCachedMiscsInfo.message().is_empty());

    let response: Response<u8> = Error::InvalidGuid.into_response();
    assert_eq!(response.status, ResponseStatus::Failed);
    assert_eq!(response.message, "Invalid guid.");
    assert_eq!(response.data, None);
}

#[test]
fn key_types_are_named_in_any_case() {
    assert_eq!(RedisKeyType::from("hash"), RedisKeyType::Hash);
    assert_eq!(RedisKeyType::from("HASH"), RedisKeyType::Hash);
    assert_eq!(RedisKeyType::from("String"), RedisKeyType::String);
    assert_eq!(RedisKeyType::from("list"), RedisKeyType::Unknown);
    assert_eq!(RedisKeyType::from(""), RedisKeyType::Unknown);
    assert_eq!(RedisKeyType::from_lowercase("HASH"), RedisKeyType::Unknown);
    assert_eq!(RedisKeyType::from_lowercase("string"), RedisKeyType::String);
    assert!(RedisKeyType::Hash.is_valid());
    assert!(RedisKeyType::String.is_valid());
    assert!(!RedisKeyType::Unknown.is_valid());
    assert_eq!(key_type_response("Hash").data, Some(RedisKeyType::Hash));
    assert_eq!(key_type_response("zset").data, Some(RedisKeyType::Unknown));
}

#[test]
fn key_commands_check_name_then_connection() {
    let (manager, guid) = manager();
    let nobody = "nobody".to_string();

    assert!(matches!(
        remove_key(&manager, &nobody, String::new()),
        Err(Error::InvalidRedisKeyName)
    ));
    assert!(matches!(
        remove_key(&manager, &nobody, "k".to_string()),
        Err(Error::FailedToFindExistedRedisConnection)
    ));
    match remove_key(&manager, &guid, "k".to_string()).unwrap() {
        RedisCommand::Del { key } => assert_eq!(key, "k"),
        _ => panic!("another command"),
    }
    match get_key_type(&manager, &guid, "k".to_string()).unwrap() {
        RedisCommand::Type { key } => assert_eq!(key, "k"),
        _ => panic!("another command"),
    }
    match get_key_ttl(&manager, &guid, "k".to_string()).unwrap() {
        RedisCommand::Ttl { key } => assert_eq!(key, "k"),
        _ => panic!("another command"),
    }
    match set_key_ttl(&manager, &guid, "k".to_string(), -1).unwrap() {
        RedisCommand::Expire { key, ttl } => {
            assert_eq!(key, "k");
            assert_eq!(ttl, -1);
        }
        _ => panic!("another command"),
    }
    match get_key_content_type_string(&manager, &guid, "k".to_string()).unwrap() {
        RedisCommand::Get { key } => assert_eq!(key, "k"),
        _ => panic!("another command"),
    }
    match set_key_content_type_string(&manager, &guid, "k".to_string(), "v".to_string()).unwrap()
    {
        RedisCommand::SetValue { key, value } => {
            assert_eq!(key, "k");
            assert_eq!(value, "v");
        }
        _ => panic!("another command"),
    }
    match get_key_content_type_hash(&manager, &guid, "k".to_string()).unwrap() {
        RedisCommand::GetFields { key } => assert_eq!(key, "k"),
        _ => panic!("another command"),
    }
    assert!(matches!(
        get_key_type(&manager, &guid, String::new()),
        Err(Error::InvalidRedisKeyName)
    ));
    assert!(matches!(
        get_key_ttl(&manager, &nobody, "k".to_string()),
        Err(Error::FailedToFindExistedRedisConnection)
    ));
    assert!(matches!(
        set_key_ttl(&manager, &guid, String::new(), 5),
        Err(Error::InvalidRedisKeyName)
    ));
    assert!(matches!(
        get_key_content_type_string(&manager, &guid, String::new()),
        Err(Error::InvalidRedisKeyName)
    ));
    assert!(matches!(
        set_key_content_type_string(&manager, &nobody, "k".to_string(), String::new()),
        Err(Error::FailedToFindExistedRedisConnection)
    ));
    assert!(matches!(
        get_key_content_type_hash(&manager, &guid, String::new()),
        Err(Error::InvalidRedisKeyName)
    ));
}

#[test]
fn rename_needs_both_names() {
    let (manager, guid) = manager();
    assert!(matches!(
        rename_key(&manager, &guid, String::new(), "b".to_string()),
        Err(Error::InvalidRedisKeyName)
    ));
    assert!(matches!(
        rename_key(&manager, &guid, "a".to_string(), String::new()),
        Err(Error::InvalidRedisKeyName)
    ));
    assert!(matches!(
        rename_key(&manager, &"nobody".to_string(), "a".to_string(), "b".to_string()),
        Err(Error::FailedToFindExistedRedisConnection)
    ));
    match rename_key(&manager, &guid, "a".to_string(), "b".to_string()).unwrap() {
        RedisCommand::Rename { key, new_key } => {
            assert_eq!(key, "a");
            assert_eq!(new_key, "b");
        }
        _ => panic!("another command"),
    }
}

#[test]
fn new_keys_start_empty_or_with_one_field() {
    let (manager, guid) = manager();
    // The kind is looked at before the name and the connection.
    assert!(matches!(
        create_new_key(&manager, &"nobody".to_string(), String::new(), RedisKeyType::Unknown),
        Err(Error::InvalidRedisKeyType)
    ));
    assert!(matches!(
        create_new_key(&manager, &"nobody".to_string(), String::new(), RedisKeyType::Hash),
        Err(Error::InvalidRedisKeyName)
    ));
    assert!(matches!(
        create_new_key(&manager, &"nobody".to_string(), "k".to_string(), RedisKeyType::Hash),
        Err(Error::FailedToFindExistedRedisConnection)
    ));
    match create_new_key(&manager, &guid, "k".to_string(), RedisKeyType::String).unwrap() {
        RedisCommand::SetValue { key, value } => {
            assert_eq!(key, "k");
            assert_eq!(value, "");
        }
        _ => panic!("another command"),
    }
    match create_new_key(&manager, &guid, "h".to_string(), RedisKeyType::Hash).unwrap() {
        RedisCommand::SetField { key, field, value } => {
            assert_eq!(key, "h");
            assert_eq!(field, "New field");
            assert_eq!(value, "New Value");
        }
        _ => panic!("another command"),
    }
}

#[test]
fn connection_commands_need_the_connection() {
    let (manager, guid) = manager();
    let nobody = "nobody".to_string();
    assert!(matches!(switch_db(&manager, &guid, 3), Ok(RedisCommand::Select { db: 3 })));
    assert!(matches!(flush_all(&manager, &guid), Ok(RedisCommand::FlushAll)));
    assert!(matches!(list_client_metrics(&manager, &guid), Ok(RedisCommand::Info)));
    match list_all_keys(&manager, &guid, Some("ab".to_string())).unwrap() {
        RedisCommand::Keys { pattern } => assert_eq!(pattern, "*ab*"),
        _ => panic!("another command"),
    }
    match list_all_keys(&manager, &guid, Some(String::new())).unwrap() {
        RedisCommand::Keys { pattern } => assert_eq!(pattern, "*"),
        _ => panic!("another command"),
    }
    assert!(matches!(
        switch_db(&manager, &nobody, 0),
        Err(Error::FailedToFindExistedRedisConnection)
    ));
    assert!(matches!(
        flush_all(&manager, &nobody),
        Err(Error::FailedToFindExistedRedisConnection)
    ));
    assert!(matches!(
        list_client_metrics(&manager, &nobody),
        Err(Error::FailedToFindExistedRedisConnection)
    ));
    assert!(matches!(
        list_all_keys(&manager, &nobody, None),
        Err(Error::FailedToFindExistedRedisConnection)
    ));

    assert!(check_connection(&manager, &guid).is_ok());
    assert!(matches!(
        check_connection(&manager, &nobody),
        Err(Error::FailedToFindExistedRedisConnection)
    ));
    assert!(check_key(&manager, &guid, &"k".to_string()).is_ok());
    assert!(matches!(
        check_key(&manager, &nobody, &String::new()),
        Err(Error::InvalidRedisKeyName)
    ));
    assert!(matches!(
        check_key(&manager, &nobody, &"k".to_string()),
        Err(Error::FailedToFindExistedRedisConnection)
    ));

    let response = listed_keys_response(vec![None, Some("a".to_string()), Some("b".to_string())]);
    assert_eq!(response.data, Some(vec!["a".to_string(), "b".to_string()]));
    assert_eq!(non_empty(Some(String::new())), None);
    assert_eq!(non_empty(Some("x".to_string())), Some("x".to_string()));
    assert_eq!(non_empty(None), None);
}

#[test]
fn first_field_of_a_name_stays() {
    let items = vec![
        (Some("a".to_string()), Some("1".to_string())),
        (None, Some("2".to_string())),
        (Some("a".to_string()), Some("3".to_string())),
        (Some("b".to_string()), None),
        (None, None),
    ];
    let response = scanned_fields_response(RedisScannerResult::new(items, false));
    assert_eq!(response.status, ResponseStatus::Success);
    let shown = response.data.unwrap();
    assert!(!shown.can_continue);
    assert_eq!(shown.fields.len(), 3);
    assert_eq!(shown.fields.get(&"a".to_string()), Some(&"1".to_string()));
    assert_eq!(shown.fields.get(&String::new()), Some(&"2".to_string()));
    assert_eq!(shown.fields.get(&"b".to_string()), Some(&String::new()));
    assert_eq!(shown.fields.key_at(0), "a");
    assert_eq!(shown.fields.key_at(1), "");
    assert_eq!(shown.fields.key_at(2), "b");
}

#[test]
fn info_report_is_read_line_by_line() {
    let report = "# Server\r\nredis_version:7.0.5\r\nos:Linux 5.15:x86\r\n\r\n# Clients\r\nconnected_clients:1\r\nnocolon\r\nempty:\r\n:novalue\r\nos:later\r\nlast:line";
    let dict = RedisInfoDict::new(report);
    assert_eq!(dict.len(), 6);
    assert!(!dict.is_empty());
    assert_eq!(dict.find(&"redis_version".to_string()), Some(&"7.0.5".to_string()));
    assert_eq!(dict.find(&"os".to_string()), Some(&"later".to_string()));
    assert_eq!(dict.find(&"connected_clients".to_string()), Some(&"1".to_string()));
    assert_eq!(dict.find(&"empty".to_string()), Some(&String::new()));
    assert_eq!(dict.find(&String::new()), Some(&"novalue".to_string()));
    assert_eq!(dict.find(&"last".to_string()), Some(&"line".to_string()));
    assert!(!dict.contains_key(&"nocolon".to_string()));
    assert!(!dict.contains_key(&"# Server".to_string()));
    assert!(dict.contains_key(&"os".to_string()));
    assert_eq!(dict.entries().key_at(1), "os");

    let plain = RedisInfoDict::new("a:1\nb:2\r\n");
    assert_eq!(plain.len(), 2);
    assert_eq!(plain.find(&"b".to_string()), Some(&"2".to_string()));
    // A carriage return that is not followed by a line feed stays.
    let bare = RedisInfoDict::new("a:1\r");
    assert_eq!(bare.find(&"a".to_string()), Some(&"1\r".to_string()));
    assert!(RedisInfoDict::new("").is_empty());
    assert!(RedisInfoDict::new("\n\n# only\n").is_empty());
}

#[test]
fn events_travel_under_their_names() {
    assert_eq!(
        Events::WindowVisibleChangedManually.into_event_name(),
        "internal:window:visible-changed-manually"
    );
    assert_eq!(
        Events::WindowVisibleChangedManually.to_string(),
        "internal:window:visible-changed-manually"
    );
    assert_eq!(SettingsEvents::Reset.into_event_name(), "plugins:setting:reset");
    assert_eq!(SettingsEvents::SetItem.into_event_name(), "plugins:setting:set");
    assert_eq!(SettingsEvents::Initialized.into_event_name(), "plugins:setting:initialized");
    assert_eq!(SettingsEvents::SetItem.to_string(), "plugins:setting:set");
    assert_eq!(
        TranslationEvents::SwitchLanguage.into_event_name(),
        "plugins:translation:switch-language"
    );
    assert_eq!(
        TranslationEvents::Initialized.to_string(),
        "plugins:translation:initialized"
    );
    let payload: TranslationSwitchLanguagePayload =
        TranslationEvents::calc_switch_language_payload("en-US".to_string());
    assert_eq!(payload.language, "en-US");
    let _none = EventsNonePayload;
    let _setting = tauri_redis::setting::events::NonePayload;
    let _translation = tauri_redis::translation::events::NonePayload;
}

#[test]
fn tray_menu_entries_have_their_ids() {
    assert_eq!(InternalSystemTrayMenuId::QuitApp.to_string(), "quit-app");
    assert_eq!(InternalSystemTrayMenuId::ToggleAppVisible.as_str(), "toggle-app-visible");
    assert_eq!(
        InternalSystemTrayMenuId::parse("quit-app"),
        Some(InternalSystemTrayMenuId::QuitApp)
    );
    assert_eq!(InternalSystemTrayMenuId::parse("quit"), None);
    assert_eq!(
        InternalSystemTrayMenuId::from("toggle-app-visible".to_string()),
        InternalSystemTrayMenuId::ToggleAppVisible
    );
    assert_eq!(menu_item_click("quit-app"), TrayAction::Quit);
    assert_eq!(menu_item_click("toggle-app-visible"), TrayAction::ToggleWindow);
    assert_eq!(menu_item_click("other"), TrayAction::Ignore);

    assert_eq!(toggle_title(true), "hide app|Hide");
    assert_eq!(toggle_title(false), "show app|Show");
    assert_eq!(toggle_window(true), (WindowChange::Hide, "show app|Show"));
    assert_eq!(toggle_window(false), (WindowChange::ShowAndFocus, "hide app|Hide"));
}

#[test]
fn tray_titles_follow_language_and_window() {
    let mut translator = Translations::new("translations".to_string());
    assert!(tray_titles(&translator, true).is_err());
    let mut resources: TextMap<String> = TextMap::new();
    resources.insert("quit app".to_string(), "Beenden".to_string());
    resources.insert("hide app".to_string(), "Verbergen".to_string());
    translator.loaded("de-DE".to_string(), resources);
    let titles = tray_titles(&translator, true).unwrap();
    assert_eq!(titles.quit, "Beenden");
    assert_eq!(titles.toggle, "Verbergen");
    assert_eq!(titles.app_title, "Tauri redis - A simple redis desktop manager.");
    let titles = tray_titles(&translator, false).unwrap();
    assert_eq!(titles.toggle, "Show");
}

#[test]
fn only_the_language_setting_changes_the_language() {
    let other = SettingsSetPayload {
        key: "theme".to_string(),
        value: serde_json::Value::String("dark".to_string()),
    };
    assert!(matches!(language_change(&other), LanguageChange::Unrelated));
    let language = SettingsSetPayload {
        key: "language".to_string(),
        value: serde_json::Value::String("zh-CN".to_string()),
    };
    match language_change(&language) {
        LanguageChange::To(name) => assert_eq!(name, "zh-CN"),
        _ => panic!("no language"),
    }
    let number = SettingsSetPayload {
        key: "language".to_string(),
        value: serde_json::Value::Bool(true),
    };
    assert!(matches!(language_change(&number), LanguageChange::Unreadable));

    let mut defaults: TextMap<serde_json::Value> = TextMap::new();
    defaults.insert("language".to_string(), serde_json::Value::String("en-US".to_string()));
    let cache = tauri_redis::cache::FileCache::new("res".to_string());
    let settings = Settings::new("data".to_string(), Some(defaults), cache, None);
    match startup_language(&settings) {
        LanguageChange::To(name) => assert_eq!(name, "en-US"),
        _ => panic!("no language"),
    }
    let cache = tauri_redis::cache::FileCache::new("res".to_string());
    let bare = Settings::new("data".to_string(), None, cache, None);
    assert!(matches!(startup_language(&bare), LanguageChange::Unrelated));
}

#[test]
fn visited_pages_are_noted_once() {
    let mut miscs = Miscs::default();
    assert!(!judge_page_route_visited(&miscs, &"/home".to_string()));
    assert!(record_page_route_visited(&mut miscs, "/home".to_string()));
    assert!(record_page_route_visited(&mut miscs, "/keys".to_string()));
    assert!(!record_page_route_visited(&mut miscs, "/home".to_string()));
    assert_eq!(miscs.visited_page_routes, vec!["/home".to_string(), "/keys".to_string()]);
    assert!(judge_page_route_visited(&miscs, &"/keys".to_string()));
    assert!(!judge_page_route_visited(&miscs, &"/key".to_string()));
}

#[test]
fn greetings_and_fetched_pages() {
    assert_eq!(greet("Ann"), "Hello, Ann! You've been greeted from Rust!");
    assert_eq!(greet(""), "Hello, ! You've been greeted from Rust!");
    assert_eq!(async_greet("Ann"), "Ann");
    let page = WebContent::new("http://x".to_string(), "<p>".to_string(), "12ms".to_string());
    assert_eq!(page.uri(), "http://x");
    assert_eq!(page.html(), "<p>");
    assert_eq!(page.time_elapsed(), "12ms");
}
