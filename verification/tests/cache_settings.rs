use tauri_redis::cache::{Cache, CacheError, CacheOptions, FileCache};
use tauri_redis::setting::command::{get, get_preset, presets, reset, resources, settings};
use tauri_redis::setting::error::Error;
use tauri_redis::setting::state::{copy_settings, Settings, SettingsMap};
use tauri_redis::text_map::TextMap;

fn number(n: u64) -> serde_json::Value {
    serde_json::Value::from(n)
}

fn text(s: &str) -> serde_json::Value {
    serde_json::Value::String(s.to_string())
}

#[test]
fn text_map_keeps_first_places_and_last_values() {
    let mut map: TextMap<u8> = TextMap::new();
    assert!(map.is_empty());
    assert_eq!(map.insert("a".to_string(), 1), None);
    assert_eq!(map.insert("b".to_string(), 2), None);
    assert_eq!(map.insert("a".to_string(), 3), Some(1));
    assert_eq!(map.len(), 2);
    assert_eq!(map.key_at(0), "a");
    assert_eq!(*map.value_at(0), 3);
    assert_eq!(map.key_at(1), "b");
    assert_eq!(map.get(&"b".to_string()), Some(&2));
    assert_eq!(map.get(&"c".to_string()), None);
    assert!(map.contains_key(&"a".to_string()));
    assert_eq!(map.remove(&"c".to_string()), None);
    assert_eq!(map.remove(&"a".to_string()), Some(3));
    assert_eq!(map.len(), 1);
    assert_eq!(map.key_at(0), "b");
    assert!(!map.contains_key(&"a".to_string()));
}

#[test]
fn cache_refuses_taken_keys_and_overflow() {
    let mut cache = Cache::new();
    assert_eq!(cache.options().max_keys(), 5000);
    assert!(!cache.options().enable_conflicts_set());
    let defaults = CacheOptions::default();
    assert_eq!(defaults.max_keys(), 5000);
    assert!(!defaults.enable_conflicts_set());

    cache.set("a".to_string(), &number(1)).unwrap();
    assert_eq!(cache.get(&"a".to_string()).unwrap(), &number(1));
    match cache.set("a".to_string(), &number(2)) {
        Err(CacheError::KeyExists(key)) => assert_eq!(key, "a"),
        _ => panic!("a taken key was set"),
    }
    assert_eq!(cache.get(&"a".to_string()).unwrap(), &number(1));
    match cache.get(&"b".to_string()) {
        Err(CacheError::MissingKey(key)) => assert_eq!(key, "b"),
        _ => panic!("a missing key was found"),
    }

    cache.set_options_enable_conflicts_set(true);
    cache.set("a".to_string(), &number(2)).unwrap();
    assert_eq!(cache.get(&"a".to_string()).unwrap(), &number(2));
    assert_eq!(cache.len(), 1);

    cache.set_options_max_key(2);
    cache.set("b".to_string(), &number(3)).unwrap();
    match cache.set("c".to_string(), &number(4)) {
        Err(CacheError::TooManyKeys(count)) => assert_eq!(count, 2),
        _ => panic!("a full cache took a key"),
    }
    // A full cache refuses a taken key as well.
    assert!(matches!(
        cache.set("a".to_string(), &number(5)),
        Err(CacheError::TooManyKeys(2))
    ));
    assert_eq!(cache.len(), 2);
    assert_eq!(cache.options().max_keys(), 2);
}

#[test]
fn cache_errors_have_their_messages() {
    assert_eq!(
        CacheError::MissingKey("a\"b".to_string()).message(),
        "Failed to get the value of the key \"a\\\"b\""
    );
    assert_eq!(
        CacheError::KeyExists("k".to_string()).message(),
        "The key \"k\" is already existed"
    );
    assert_eq!(CacheError::TooManyKeys(5000).message(), "Maximum keys(5000) exceed.");
    assert_eq!(CacheError::EmptyFileCache.message(), "Empty file cache!");
    assert_eq!(CacheError::EmptyContent.message(), "Empty content.");
    assert_eq!(
        CacheError::NotLoaded.message(),
        "Please correctly exec 'load' fn first."
    );
    assert_eq!(CacheError::Json("eof".to_string()).message(), "eof");
}

#[test]
fn file_cache_loads_once_and_says_what_to_write() {
    let mut cache = FileCache::new("data".to_string());
    assert!(cache.as_inner().is_none());
    assert_eq!(cache.directory(), "data");
    assert!(matches!(cache.save(true), Err(CacheError::NotLoaded)));

    let name = "settings.json".to_string();
    let path = cache.load(&name).unwrap();
    let expected = std::path::Path::new("data").join("settings.json");
    assert_eq!(path, expected.to_string_lossy());
    assert_eq!(cache.filepath(), &Some(path.clone()));
    assert_eq!(cache.filename(), &None);
    assert!(matches!(cache.save(true), Err(CacheError::EmptyFileCache)));

    assert!(matches!(
        cache.loaded_content(name.clone(), ""),
        Err(CacheError::EmptyContent)
    ));
    assert_eq!(cache.filename(), &None);
    assert!(matches!(
        cache.loaded_content(name.clone(), "{\"a\": "),
        Err(CacheError::Json(_))
    ));
    assert_eq!(cache.filename(), &Some(name.clone()));
    assert!(cache.as_inner().is_none());
    // The name is noted but there is no value: the file is asked for again.
    assert!(cache.load(&name).is_some());

    cache.loaded_content(name.clone(), "{\"b\": [1, 2],  \"a\": \"x\"}").unwrap();
    assert!(cache.as_inner().is_some());
    // Loaded: nothing to read.
    assert_eq!(cache.load(&name), None);
    assert!(cache.load(&"other.json".to_string()).is_some());

    let mut cache = FileCache::new("data".to_string());
    cache.load(&name);
    cache.loaded_content(name.clone(), "{\"b\": [1, 2],  \"a\": \"x\"}").unwrap();
    let write = cache.save(false).unwrap();
    assert_eq!(write.filepath, path);
    assert_eq!(write.content, "{\"a\":\"x\",\"b\":[1,2]}");
    let write = cache.save(true).unwrap();
    assert_eq!(write.content, "{\n  \"a\": \"x\",\n  \"b\": [\n    1,\n    2\n  ]\n}");

    cache.replace(number(7)).unwrap();
    assert_eq!(cache.as_inner(), &Some(number(7)));
    assert_eq!(cache.save(false).unwrap().content, "7");
}

fn defaults() -> SettingsMap {
    let mut map: SettingsMap = TextMap::new();
    map.insert("language".to_string(), text("en-US"));
    map.insert("redisEachScanCount".to_string(), number(100));
    map
}

fn loaded_settings() -> Settings {
    let mut presets: SettingsMap = TextMap::new();
    presets.insert("languages".to_string(), text("en-US,zh-CN"));
    let cache = FileCache::new("res".to_string());
    Settings::new("data".to_string(), Some(defaults()), cache, Some(presets))
}

#[test]
fn settings_fall_back_to_defaults() {
    let mut state = loaded_settings();
    let key = "redisEachScanCount".to_string();
    assert_eq!(state.get(&key), Some(&number(100)));
    assert_eq!(state.get_de(&key).unwrap(), &number(100));

    let mut chosen: SettingsMap = TextMap::new();
    chosen.insert("language".to_string(), text("zh-CN"));
    state.load(chosen);
    // Chosen by the user.
    assert_eq!(state.get(&"language".to_string()), Some(&text("zh-CN")));
    // Not chosen: the default.
    assert_eq!(state.get(&key), Some(&number(100)));
    assert_eq!(state.get(&"nothing".to_string()), None);
    assert!(matches!(
        state.get_de(&"nothing".to_string()),
        Err(Error::FailedToGetTargetSettingItem)
    ));
    assert_eq!(state.get_presets(&"languages".to_string()), Some(&text("en-US,zh-CN")));
    assert_eq!(state.get_presets(&"language".to_string()), None);
    assert!(matches!(
        state.get_presets_de(&"language".to_string()),
        Err(Error::FailedToGetTargetSettingPresetsItem)
    ));

    state.reset().unwrap();
    assert_eq!(state.get(&"language".to_string()), Some(&text("en-US")));
    assert_eq!(state.inner().unwrap().len(), 2);
}

#[test]
fn settings_commands_check_their_keys() {
    let mut state = loaded_settings();
    assert!(matches!(get(&state, String::new()), Err(Error::InvalidParameter)));
    assert!(matches!(
        get(&state, "nothing".to_string()),
        Err(Error::FailedToGetTargetSettingItem)
    ));
    assert_eq!(get(&state, "language".to_string()).unwrap(), text("en-US"));
    assert!(matches!(get_preset(&state, String::new()), Err(Error::InvalidParameter)));
    assert!(matches!(
        get_preset(&state, "nothing".to_string()),
        Err(Error::FailedToGetTargetSettingPresetsItem)
    ));
    assert_eq!(get_preset(&state, "languages".to_string()).unwrap(), text("en-US,zh-CN"));

    assert!(matches!(
        tauri_redis::setting::command::set(&mut state, String::new(), number(1)),
        Err(Error::InvalidParameter)
    ));
    let payload = tauri_redis::setting::command::set(&mut state, "language".to_string(), text("zh-CN")).unwrap();
    assert_eq!(payload.key, "language");
    assert_eq!(payload.value, text("zh-CN"));
    assert_eq!(get(&state, "language".to_string()).unwrap(), text("zh-CN"));
    // A new key fails, though its value stays.
    assert!(matches!(
        tauri_redis::setting::command::set(&mut state, "fresh".to_string(), number(9)),
        Err(Error::FailedToSetTargetSettingItem)
    ));
    assert_eq!(get(&state, "fresh".to_string()).unwrap(), number(9));

    let shown = resources(&state).unwrap();
    assert_eq!(shown.settings.len(), 3);
    assert_eq!(shown.presets.len(), 1);
    assert_eq!(settings(&state).unwrap().get(&"fresh".to_string()), Some(&number(9)));
    assert_eq!(presets(&state).unwrap().key_at(0), "languages");

    reset(&mut state).unwrap();
    assert!(matches!(
        get(&state, "fresh".to_string()),
        Err(Error::FailedToGetTargetSettingItem)
    ));
    assert_eq!(get(&state, "language".to_string()).unwrap(), text("en-US"));
}

#[test]
fn settings_that_are_not_loaded_cannot_be_shown() {
    let cache = FileCache::new("res".to_string());
    let state = Settings::new("data".to_string(), None, cache, None);
    assert!(matches!(resources(&state), Err(Error::FailedToLoadTheSettingFile)));
    assert!(matches!(settings(&state), Err(Error::FailedToLoadTheSettingFile)));
    assert!(matches!(presets(&state), Err(Error::FailedToLoadTheSettingFile)));
    assert_eq!(state.get(&"language".to_string()), None);

    let cache = FileCache::new("res".to_string());
    let half = Settings::new("data".to_string(), Some(defaults()), cache, None);
    assert!(matches!(resources(&half), Err(Error::FailedToLoadTheSettingFile)));
    assert!(settings(&half).is_ok());
}

#[test]
fn settings_say_what_to_write() {
    let mut state = loaded_settings();
    let object = serde_json::Value::Bool(true);
    // No file was named yet.
    assert!(matches!(state.save(object.clone()), Err(Error::FailedToSaveSettings)));
    let path = state.cache().load(&"settings.json".to_string()).unwrap();
    let write = state.save(object).unwrap();
    assert_eq!(write.filepath, path);
    assert_eq!(write.content, "true");

    assert_eq!(state.presets_cache().directory(), "res");
    assert!(state.presets_cache().as_inner().is_none());

    let copy = copy_settings(&defaults());
    assert_eq!(copy.len(), 2);
    assert_eq!(copy.key_at(0), "language");
    assert_eq!(copy.key_at(1), "redisEachScanCount");
    assert_eq!(copy.get(&"redisEachScanCount".to_string()), Some(&number(100)));
}

#[test]
fn setting_errors_have_their_messages() {
    let cases = [
        (Error::FailedToLoadTheSettingFile, "Failed to load the setting file."),
        (Error::FailedToParseTheSettingFile, "Failed to parse the setting file."),
        (Error::FailedToGetTargetSettingItem, "Failed to get target setting item."),
        (Error::FailedToParseTargetSettingItem, "Failed to Parse target setting item."),
        (Error::FailedToSetTargetSettingItem, "Failed to set target setting item."),
        (Error::FailedToSaveSettings, "Failed to save settings."),
        (
            Error::FailedToGetTargetSettingPresetsItem,
            "Failed to get target setting presets item.",
        ),
        (
            Error::FailedToParseTargetSettingPresetsItem,
            "Failed to Parse target setting presets item.",
        ),
        (Error::InvalidParameter, "Invalid parameter."),
        (Error::TauriInternalError("window gone".to_string()), "window gone"),
    ];
    for (error, text) in cases {
        assert_eq!(error.message(), text);
    }
}
