use tauri_redis::text_map::TextMap;
use tauri_redis::translation::error::Error;
use tauri_redis::translation::state::{
    _base_translate, _format, _translate, choose_expanded, invoke_translate, pick_translation,
    split_key, LanguageFile, Translations,
};

fn resources() -> TextMap<String> {
    let mut map: TextMap<String> = TextMap::new();
    map.insert("hello".to_string(), "Hello {0}, {1}! {0}?".to_string());
    map.insert("advice".to_string(), "take care".to_string());
    map.insert("note".to_string(), "Please {advice}, {name|friend}.".to_string());
    map.insert("quit app".to_string(), "Quit".to_string());
    map
}

#[test]
fn keys_are_split_at_the_first_bar() {
    assert_eq!(split_key(&"hide app|Hide".to_string()), ("hide app".to_string(), "Hide".to_string()));
    assert_eq!(split_key(&"a|b|c".to_string()), ("a".to_string(), "b|c".to_string()));
    assert_eq!(split_key(&"plain".to_string()), ("plain".to_string(), String::new()));
    assert_eq!(split_key(&"|x".to_string()), (String::new(), "x".to_string()));
    assert_eq!(split_key(&"x|".to_string()), ("x".to_string(), String::new()));
    assert_eq!(split_key(&String::new()), (String::new(), String::new()));
    assert_eq!(split_key(&"über|Ü".to_string()), ("über".to_string(), "Ü".to_string()));
}

#[test]
fn translation_then_fallback_then_marked_name() {
    let map = resources();
    let pick = |name: &str, lowered: &str, fallback: &str| {
        pick_translation(&map, &name.to_string(), &lowered.to_string(), fallback.to_string())
    };
    assert_eq!(pick("Advice", "advice", "x"), "take care");
    assert_eq!(pick("Missing", "missing", "x"), "x");
    assert_eq!(pick("Missing", "missing", ""), "#Missing");
}

#[test]
fn base_translation_looks_up_in_lower_case() {
    let map = resources();
    let base = |key: &str| _base_translate(&map, &key.to_string());
    assert_eq!(base("advice"), "take care");
    assert_eq!(base("ADVICE"), "take care");
    assert_eq!(base("Quit App|Leave"), "Quit");
    assert_eq!(base("missing|Fallback"), "Fallback");
    assert_eq!(base("Missing"), "#Missing");
    assert_eq!(base(""), "");
    // A key of one character of white space counts as empty; one of two
    // does not.
    assert_eq!(base(" "), "");
    assert_eq!(base("\t"), "");
    assert_eq!(base("  "), "#  ");
}

#[test]
fn arguments_go_into_their_slots_once() {
    let args = |items: &[&str]| Some(items.iter().map(|s| s.to_string()).collect::<Vec<_>>());
    assert_eq!(_format("a {0} b {1}".to_string(), args(&["x", "y"])), "a x b y");
    // Only the first occurrence of a slot is filled.
    assert_eq!(_format("{0} {0}".to_string(), args(&["x"])), "x {0}");
    assert_eq!(_format("{1}".to_string(), args(&["x"])), "{1}");
    assert_eq!(_format("{0}".to_string(), args(&[])), "{0}");
    assert_eq!(_format("{0}".to_string(), None), "{0}");
    // An argument that brings the next slot along gets it filled.
    assert_eq!(_format("{0}".to_string(), args(&["{1}", "z"])), "z");
}

#[test]
fn keys_in_braces_are_translated_in_turn() {
    let map = resources();
    let translate = |key: &str, rest: Option<Vec<String>>| _translate(&map, &key.to_string(), rest);
    assert_eq!(translate("advice", None), "take care");
    assert_eq!(
        translate("hello", Some(vec!["Ann".to_string(), "welcome".to_string()])),
        "Hello Ann, welcome! {0}?"
    );
    assert_eq!(translate("note", None), "Please take care, friend.");
    assert_eq!(translate("missing|See {advice}", None), "See take care");
    assert_eq!(translate("unknown", None), "#unknown");
    assert_eq!(translate(" ", None), "");

    assert_eq!(choose_expanded("a".to_string(), Some(true), Some("b".to_string())), "b");
    assert_eq!(choose_expanded("a".to_string(), Some(false), Some("b".to_string())), "a");
    assert_eq!(choose_expanded("a".to_string(), None, Some("b".to_string())), "a");
    assert_eq!(choose_expanded("a".to_string(), Some(true), None), "a");
}

#[test]
fn empty_keys_are_refused() {
    let map = resources();
    assert!(matches!(
        invoke_translate(&map, &String::new(), None),
        Err(Error::InvalidParameter)
    ));
    assert_eq!(invoke_translate(&map, &"advice".to_string(), None).unwrap(), "take care");
}

fn entry(is_file: bool, extension: Option<&str>, stem: Option<&str>) -> LanguageFile {
    LanguageFile {
        is_file,
        extension: extension.map(|s| s.to_string()),
        stem: stem.map(|s| s.to_string()),
    }
}

#[test]
fn languages_are_the_json_files_of_the_folder() {
    let mut translations = Translations::new("translations".to_string());
    assert!(translations.languages().is_empty());
    translations
        .count_languages(vec![
            entry(true, Some("json"), Some("en-US")),
            entry(false, Some("json"), Some("folder")),
            entry(true, Some("txt"), Some("notes")),
            entry(true, None, Some("README")),
            entry(true, Some("json"), Some("zh-CN")),
            entry(true, Some("JSON"), Some("de-DE")),
            entry(true, Some("json"), None),
        ])
        .unwrap();
    assert_eq!(translations.languages(), &vec!["en-US".to_string(), "zh-CN".to_string()]);

    assert!(matches!(translations.load(&String::new()), Err(Error::InvalidParameter)));
    assert!(matches!(
        translations.load(&"de-DE".to_string()),
        Err(Error::FailedToFindTargetTranslationFile)
    ));
    assert_eq!(translations.load(&"zh-CN".to_string()).unwrap(), "zh-CN.json");
    assert_eq!(translations.switch_to(&"en-US".to_string()).unwrap(), "en-US.json");
    assert!(matches!(
        translations.switch_to(&"fr".to_string()),
        Err(Error::FailedToFindTargetTranslationFile)
    ));
    assert_eq!(translations.language().unwrap(), "");
    assert!(translations.resources().is_none());

    translations.loaded("zh-CN".to_string(), resources());
    assert_eq!(translations.language().unwrap(), "zh-CN");
    assert_eq!(translations.resources().unwrap().len(), 4);
    assert_eq!(translations.languages().len(), 2);
}

#[test]
fn translating_needs_a_loaded_language() {
    let mut translations = Translations::new("translations".to_string());
    assert!(matches!(
        translations.translate("advice".to_string(), None),
        Err(Error::FailedToFindMatchedTranslation)
    ));
    assert!(matches!(
        translations.translate_group(vec!["advice".to_string()]),
        Err(Error::EmptyTranslationSource)
    ));
    translations.loaded("en-US".to_string(), resources());
    assert_eq!(translations.translate("advice".to_string(), None).unwrap(), "take care");
    assert!(matches!(
        translations.translate(String::new(), None),
        Err(Error::FailedToFindMatchedTranslation)
    ));

    let group = translations
        .translate_group(vec![
            "advice".to_string(),
            String::new(),
            "x|y".to_string(),
            "note".to_string(),
            "advice".to_string(),
        ])
        .unwrap();
    assert_eq!(group.len(), 3);
    assert_eq!(group.get(&"advice".to_string()), Some(&"take care".to_string()));
    assert_eq!(group.get(&"x|y".to_string()), Some(&"y".to_string()));
    assert_eq!(
        group.get(&"note".to_string()),
        Some(&"Please take care, friend.".to_string())
    );
}

#[test]
fn translation_errors_have_their_messages() {
    let cases = [
        (Error::FailedToFindMatchedTranslation, "Failed to find the matched translation."),
        (Error::EmptyTranslationSource, "Empty translation source."),
        (
            Error::FailedToFindTargetTranslationFolder,
            "Failed to find the target translation folder.",
        ),
        (
            Error::FailedToFindTargetTranslationFile,
            "Failed to find the target translation file.",
        ),
        (
            Error::FailedToParseTargetTranslationFile,
            "Failed to parse the target translation file.",
        ),
        (Error::InvalidParameter, "Invalid parameter."),
    ];
    for (error, text) in cases {
        assert_eq!(error.message(), text);
    }
}
