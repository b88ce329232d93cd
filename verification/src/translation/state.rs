//! The translations in memory, and how a key becomes a text.
//!
//! A key names a translation and may carry a fallback after a bar:
//! `hide app|Hide`. A translation may hold numbered slots, `{0}`, for the
//! arguments of a call, and further keys in braces, `{advice}`, that are
//! translated in turn.

use vstd::prelude::*;
use vstd::string::{StrSliceExecFns, StringExecFns};
use crate::cache::{FileCache, FileCacheModel};
use crate::text::{decimal, digits, lowercase_of, opt_text, texts_of, to_lowercase};
use crate::text_map::TextMap;
use crate::translation::error::Error;

verus! {

/// The pattern of a single character of white space.
pub const WHITESPACE: &'static str = "\\s";

/// The pattern of a key in braces: letters first, then anything but braces
/// and bars, then at most one bar with a fallback.
pub const KEY_LIKE_PLACEHOLDER: &'static str = "(?:\\{([a-zA-z]+[^{}|]*(?:\\|[^{}]*)?)\\})";

/// What `regex::Regex::replace` makes of a text: the text with the first
/// match of the pattern replaced, or nothing where `regex::Regex::new`
/// refuses the pattern.
pub uninterp spec fn first_replaced(
    pattern: Seq<char>,
    text: Seq<char>,
    replacement: Seq<char>,
) -> Option<Seq<char>>;

/// Whether a `regex::RegexSet` of the one pattern, built to ignore case,
/// matches the text, or nothing where the set cannot be built.
pub uninterp spec fn matched_ignoring_case(pattern: Seq<char>, text: Seq<char>) -> Option<bool>;

/// What `regex::Regex::replace_all` makes of a text when every match is
/// replaced by the translation of its first group, or nothing where
/// `regex::Regex::new` refuses the pattern.
pub uninterp spec fn groups_translated(
    pattern: Seq<char>,
    text: Seq<char>,
    resources: Map<Seq<char>, Seq<char>>,
) -> Option<Seq<char>>;

/// `regex::Regex::new` and `regex::Regex::replace`: the first match of
/// `pattern` in `text` replaced by `replacement`, in which `$` refers to
/// groups of the match. The contract gives the result a name and says no more
/// of it.
#[verifier::external_body]
fn replace_first(pattern: &str, text: &str, replacement: &str) -> (res: Option<String>)
    ensures
        opt_text(res) == first_replaced(pattern@, text@, replacement@),
{
    regex::Regex::new(pattern).ok().map(|re| re.replace(text, replacement).into_owned())
}

/// `regex::RegexSetBuilder::new` with the one pattern, `case_insensitive`,
/// `build`, and `regex::RegexSet::matches`: whether the pattern matches
/// anywhere in the text, case ignored. The contract gives the result a name
/// and says no more of it.
#[verifier::external_body]
fn match_ignoring_case(pattern: &str, text: &str) -> (res: Option<bool>)
    ensures
        res == matched_ignoring_case(pattern@, text@),
{
    regex::RegexSetBuilder::new([pattern]).case_insensitive(true).build().ok().map(
        |set| set.matches(text).matched_any(),
    )
}

/// `regex::Regex::new` and `regex::Regex::replace_all`, where each match is
/// replaced by what `_base_translate` makes of its first group. The pattern
/// is that of a key in braces, whose first group takes part in every match.
/// The contract gives the result a name and says no more of it.
#[verifier::external_body]
fn translate_groups(pattern: &str, text: &str, resources: &TextMap<String>) -> (res: Option<String>)
    requires
        pattern@ == KEY_LIKE_PLACEHOLDER@,
    ensures
        opt_text(res) == groups_translated(pattern@, text@, texts_of(resources@)),
{
    regex::Regex::new(pattern).ok().map(
        |re|
            re.replace_all(
                text,
                |caps: &regex::Captures| _base_translate(resources, &caps[1].to_string()),
            ).into_owned(),
    )
}

/// The place of the first bar in a key, or its length where it has none.
pub open spec fn bar_at(key: Seq<char>) -> int
    decreases key.len(),
{
    if key.len() == 0 {
        0
    } else if key[0] == '|' {
        0
    } else {
        1 + bar_at(key.drop_first())
    }
}

/// `bar_at` names the first bar.
pub proof fn lemma_bar_at(key: Seq<char>)
    ensures
        0 <= bar_at(key) <= key.len(),
        bar_at(key) < key.len() ==> key[bar_at(key)] == '|',
        forall|i: int| 0 <= i < bar_at(key) ==> key[i] != '|',
    decreases key.len(),
{
    if key.len() > 0 && key[0] != '|' {
        let rest = key.drop_first();
        lemma_bar_at(rest);
        assert forall|i: int| 0 <= i < bar_at(key) implies key[i] != '|' by {
            if i > 0 {
                assert(rest[i - 1] == key[i]);
            }
        }
    }
}

/// The name in a key: what stands before the first bar.
pub open spec fn key_name(key: Seq<char>) -> Seq<char> {
    key.subrange(0, bar_at(key))
}

/// The fallback in a key: what stands behind the first bar, and the empty
/// text where there is no bar.
pub open spec fn key_fallback(key: Seq<char>) -> Seq<char> {
    if bar_at(key) < key.len() {
        key.subrange(bar_at(key) + 1, key.len() as int)
    } else {
        Seq::empty()
    }
}

/// Splits a key into its name and its fallback.
pub fn split_key(key: &String) -> (parts: (String, String))
    ensures
        parts.0@ == key_name(key@),
        parts.1@ == key_fallback(key@),
{
    let text = key.as_str();
    let len = text.unicode_len();
    let mut i: usize = 0;
    while i < len
        invariant
            text@ == key@,
            len == key@.len(),
            i <= len,
            forall|k: int| 0 <= k < i ==> key@[k] != '|',
        decreases len - i,
    {
        if text.get_char(i) == '|' {
            proof {
                lemma_bar_at(key@);
                if bar_at(key@) > i {
                    assert(key@[i as int] != '|');
                }
            }
            let name = String::from_str(text.substring_char(0, i));
            let fallback = String::from_str(text.substring_char(i + 1, len));
            return (name, fallback);
        }
        i += 1;
    }
    proof {
        lemma_bar_at(key@);
        if bar_at(key@) < len {
            assert(key@[bar_at(key@)] == '|');
        }
        assert(key@.subrange(0, len as int) =~= key@);
    }
    (key.clone(), String::new())
}

/// The text for a name: its translation, looked up under the name in lower
/// case; else the fallback; else the name behind a `#`.
pub open spec fn picked(
    resources: Map<Seq<char>, Seq<char>>,
    name: Seq<char>,
    lowered: Seq<char>,
    fallback: Seq<char>,
) -> Seq<char> {
    if resources.contains_key(lowered) {
        resources[lowered]
    } else if fallback.len() == 0 {
        seq!['#'] + name
    } else {
        fallback
    }
}

/// Picks the text for a name, given the name in lower case.
pub fn pick_translation(
    resources: &TextMap<String>,
    name: &String,
    lowered: &String,
    fallback: String,
) -> (text: String)
    ensures
        text@ == picked(texts_of(resources@), name@, lowered@, fallback@),
{
    match resources.get(lowered) {
        Some(value) => value.clone(),
        None => {
            if fallback.as_str().is_empty() {
                proof {
                    reveal_strlit("#");
                }
                let text = String::from_str("#").concat(name.as_str());
                assert(text@ =~= seq!['#'] + name@);
                text
            } else {
                fallback
            }
        },
    }
}

/// What a key alone translates to. An empty key, and one that is empty once
/// its first character of white space is taken out, give the empty text.
/// Every other key is split at its first bar and its name is looked up in
/// lower case.
pub open spec fn base_translation(resources: Map<Seq<char>, Seq<char>>, key: Seq<char>) -> Seq<
    char,
> {
    let stripped = match first_replaced(WHITESPACE@, key, Seq::empty()) {
        Some(s) => s,
        None => key,
    };
    if key.len() == 0 || stripped.len() == 0 {
        Seq::empty()
    } else {
        picked(resources, key_name(key), lowercase_of(key_name(key)), key_fallback(key))
    }
}

/// Translates a key without arguments and without looking into the
/// translation for further keys.
pub fn _base_translate(resources: &TextMap<String>, key: &String) -> (text: String)
    ensures
        text@ == base_translation(texts_of(resources@), key@),
{
    if key.as_str().is_empty() {
        return String::new();
    }
    proof {
        reveal_strlit("");
        assert(""@ =~= Seq::<char>::empty());
    }
    let blank = match replace_first(WHITESPACE, key.as_str(), "") {
        Some(stripped) => stripped.as_str().is_empty(),
        None => false,
    };
    if blank {
        return String::new();
    }
    let (name, fallback) = split_key(key);
    let lowered = to_lowercase(name.as_str());
    pick_translation(resources, &name, &lowered, fallback)
}

/// The pattern of the slot with this number: the number in braces.
pub open spec fn slot_pattern(index: usize) -> Seq<char> {
    "\\{"@ + decimal(index) + "\\}"@
}

/// A text after the first `count` arguments have gone into their slots: one
/// after the other, each replaces the first occurrence of its slot.
pub open spec fn formatted(value: Seq<char>, rest: Seq<String>, count: int) -> Seq<char>
    decreases count,
{
    if count <= 0 {
        value
    } else {
        let before = formatted(value, rest, count - 1);
        match first_replaced(slot_pattern((count - 1) as usize), before, rest[count - 1]@) {
            Some(after) => after,
            None => before,
        }
    }
}

/// Puts the arguments of a call into the numbered slots of a translation.
pub fn _format(value: String, rest: Option<Vec<String>>) -> (text: String)
    ensures
        text@ == match rest {
            Some(args) => formatted(value@, args@, args@.len() as int),
            None => value@,
        },
{
    let args = match rest {
        Some(args) => args,
        None => {
            return value;
        },
    };
    let mut content = value;
    let mut idx: usize = 0;
    while idx < args.len()
        invariant
            idx <= args.len(),
            content@ == formatted(value@, args@, idx as int),
        decreases args.len() - idx,
    {
        let pattern = String::from_str("\\{").concat(digits(idx).as_str()).concat("\\}");
        match replace_first(pattern.as_str(), content.as_str(), args[idx].as_str()) {
            Some(replaced) => {
                content = replaced;
            },
            None => {},
        }
        idx += 1;
    }
    content
}

/// What becomes of a formatted translation once the keys in braces are
/// looked at: where there is one, case ignored, each is replaced by its own
/// translation; where there is none the text stays.
pub open spec fn expanded(
    content: Seq<char>,
    matched: Option<bool>,
    replaced: Option<Seq<char>>,
) -> Seq<char> {
    if matched == Some(true) && replaced is Some {
        replaced->0
    } else {
        content
    }
}

/// Chooses between a formatted translation and the same with its keys in
/// braces translated, given whether there is such a key.
pub fn choose_expanded(content: String, matched: Option<bool>, replaced: Option<String>) -> (text:
    String)
    ensures
        text@ == expanded(content@, matched, opt_text(replaced)),
{
    match matched {
        Some(true) => match replaced {
            Some(text) => text,
            None => content,
        },
        _ => content,
    }
}

/// What a key with arguments translates to: the translation of the key
/// alone, and unless that is empty, with the arguments in its slots and its
/// keys in braces translated.
pub open spec fn translation(
    resources: Map<Seq<char>, Seq<char>>,
    key: Seq<char>,
    rest: Option<Vec<String>>,
) -> Seq<char> {
    let base = base_translation(resources, key);
    if base.len() == 0 {
        base
    } else {
        let content = match rest {
            Some(args) => formatted(base, args@, args@.len() as int),
            None => base,
        };
        expanded(
            content,
            matched_ignoring_case(KEY_LIKE_PLACEHOLDER@, content),
            groups_translated(KEY_LIKE_PLACEHOLDER@, content, resources),
        )
    }
}

/// Translates a key with the arguments of a call.
pub fn _translate(resources: &TextMap<String>, key: &String, rest: Option<Vec<String>>) -> (text:
    String)
    ensures
        text@ == translation(texts_of(resources@), key@, rest),
{
    let base = _base_translate(resources, key);
    if base.as_str().is_empty() {
        return base;
    }
    let content = _format(base, rest);
    let matched = match_ignoring_case(KEY_LIKE_PLACEHOLDER, content.as_str());
    let replaced = translate_groups(KEY_LIKE_PLACEHOLDER, content.as_str(), resources);
    choose_expanded(content, matched, replaced)
}

/// Translates a key with the arguments of a call. An empty key is refused.
pub fn invoke_translate(resources: &TextMap<String>, key: &String, rest: Option<Vec<String>>) -> (res:
    Result<String, Error>)
    ensures
        key@.len() == 0 ==> res == Err::<String, Error>(Error::InvalidParameter),
        key@.len() > 0 ==> res is Ok && res->Ok_0@ == translation(
            texts_of(resources@),
            key@,
            rest,
        ),
{
    if key.as_str().is_empty() {
        return Err(Error::InvalidParameter);
    }
    Ok(_translate(resources, key, rest))
}

/// What is known of one entry of the translations folder.
#[derive(Debug)]
pub struct LanguageFile {
    /// Whether the entry is a file.
    pub is_file: bool,
    /// The extension of its name, if it has one.
    pub extension: Option<String>,
    /// Its name without the extension, if it has one.
    pub stem: Option<String>,
}

/// The languages that a run of folder entries offers: the stems of the files
/// with the extension `json`, in the order of the entries.
pub open spec fn languages_of(entries: Seq<LanguageFile>) -> Seq<String>
    decreases entries.len(),
{
    if entries.len() == 0 {
        Seq::empty()
    } else {
        let before = languages_of(entries.drop_last());
        let entry = entries.last();
        if entry.is_file && opt_text(entry.extension) == Some("json"@) && entry.stem is Some {
            before.push(entry.stem->0)
        } else {
            before
        }
    }
}

/// The translations of one language, the languages on offer, and the cache of
/// the language file.
pub struct Translations {
    cache: FileCache,
    language: String,
    languages: Vec<String>,
    inner: Option<TextMap<String>>,
}

/// The translations as a mathematical value.
pub struct TranslationsModel {
    /// The language that is loaded; empty where none is.
    pub language: Seq<char>,
    /// The languages on offer.
    pub languages: Seq<String>,
    /// The translations of the loaded language by key.
    pub resources: Option<Map<Seq<char>, Seq<char>>>,
    /// The cache of the language file.
    pub file: FileCacheModel,
}

impl View for Translations {
    type V = TranslationsModel;

    closed spec fn view(&self) -> TranslationsModel {
        TranslationsModel {
            language: self.language@,
            languages: self.languages@,
            resources: match self.inner {
                Some(map) => Some(texts_of(map@)),
                None => None,
            },
            file: self.cache@,
        }
    }
}

/// Whether `language` is among the languages.
pub open spec fn offered(languages: Seq<String>, language: Seq<char>) -> bool {
    exists|i: int| 0 <= i < languages.len() && #[trigger] languages[i]@ == language
}

impl Translations {
    /// Translations for the language files in `folder`: no language loaded,
    /// none on offer yet.
    pub fn new(folder: String) -> (translations: Self)
        ensures
            translations@ == (TranslationsModel {
                language: Seq::empty(),
                languages: Seq::empty(),
                resources: None,
                file: FileCacheModel {
                    value: None,
                    directory: folder@,
                    filename: None,
                    filepath: None,
                },
            }),
    {
        Translations {
            cache: FileCache::new(folder),
            language: String::new(),
            languages: Vec::new(),
            inner: None,
        }
    }

    /// The cache of the language file.
    pub fn cache(&mut self) -> (cache: &mut FileCache)
        ensures
            cache@ == old(self)@.file,
            final(self)@ == (TranslationsModel { file: final(cache)@, ..old(self)@ }),
    {
        &mut self.cache
    }

    /// Takes the entries of the translations folder and offers the languages
    /// found among them.
    pub fn count_languages(&mut self, entries: Vec<LanguageFile>) -> (res: Result<(), Error>)
        ensures
            res is Ok,
            final(self)@ == (TranslationsModel {
                languages: languages_of(entries@),
                ..old(self)@
            }),
    {
        let mut languages: Vec<String> = Vec::new();
        let mut i: usize = 0;
        while i < entries.len()
            invariant
                i <= entries.len(),
                languages@ == languages_of(entries@.subrange(0, i as int)),
            decreases entries.len() - i,
        {
            assert(entries@.subrange(0, i + 1).drop_last() =~= entries@.subrange(0, i as int));
            let entry = &entries[i];
            let is_json = match &entry.extension {
                Some(ext) => *ext == String::from_str("json"),
                None => false,
            };
            if entry.is_file && is_json {
                match &entry.stem {
                    Some(stem) => {
                        languages.push(stem.clone());
                    },
                    None => {},
                }
            }
            i += 1;
        }
        assert(entries@.subrange(0, i as int) =~= entries@);
        self.languages = languages;
        Ok(())
    }

    /// Whether `language` is on offer.
    fn offers(&self, language: &String) -> (found: bool)
        ensures
            found == offered(self@.languages, language@),
    {
        let mut i: usize = 0;
        while i < self.languages.len()
            invariant
                i <= self.languages.len(),
                forall|k: int| 0 <= k < i ==> self.languages[k]@ != language@,
            decreases self.languages.len() - i,
        {
            if self.languages[i] == *language {
                assert(self@.languages[i as int]@ == language@);
                return true;
            }
            i += 1;
        }
        false
    }

    /// Begins to load `language`: says which file to read from the folder.
    /// An empty name is refused, then a language that is not on offer.
    pub fn load(&self, language: &String) -> (res: Result<String, Error>)
        ensures
            language@.len() == 0 ==> res == Err::<String, Error>(Error::InvalidParameter),
            language@.len() > 0 && !offered(self@.languages, language@) ==> res == Err::<
                String,
                Error,
            >(Error::FailedToFindTargetTranslationFile),
            language@.len() > 0 && offered(self@.languages, language@) ==> res is Ok
                && res->Ok_0@ == language@ + ".json"@,
    {
        if language.as_str().is_empty() {
            return Err(Error::InvalidParameter);
        }
        if !self.offers(language) {
            return Err(Error::FailedToFindTargetTranslationFile);
        }
        Ok(language.clone().concat(".json"))
    }

    /// Ends the load of `language` with the translations read from its file.
    pub fn loaded(&mut self, language: String, resources: TextMap<String>)
        ensures
            final(self)@ == (TranslationsModel {
                language: language@,
                resources: Some(texts_of(resources@)),
                ..old(self)@
            }),
    {
        self.language = language;
        self.inner = Some(resources);
    }

    /// Begins to switch to `language`, as `load` does.
    pub fn switch_to(&self, language: &String) -> (res: Result<String, Error>)
        ensures
            language@.len() == 0 ==> res == Err::<String, Error>(Error::InvalidParameter),
            language@.len() > 0 && !offered(self@.languages, language@) ==> res == Err::<
                String,
                Error,
            >(Error::FailedToFindTargetTranslationFile),
            language@.len() > 0 && offered(self@.languages, language@) ==> res is Ok
                && res->Ok_0@ == language@ + ".json"@,
    {
        self.load(language)
    }

    /// The translations of the loaded language, if one is loaded.
    pub fn resources(&self) -> (resources: Option<&TextMap<String>>)
        ensures
            match resources {
                Some(map) => self@.resources == Some(texts_of(map@)),
                None => self@.resources is None,
            },
    {
        self.inner.as_ref()
    }

    /// The language that is loaded.
    pub fn language(&self) -> (res: Result<String, Error>)
        ensures
            res is Ok && res->Ok_0@ == self@.language,
    {
        Ok(self.language.clone())
    }

    /// The languages on offer.
    pub fn languages(&self) -> (languages: &Vec<String>)
        ensures
            languages@ == self@.languages,
    {
        &self.languages
    }

    /// Translates a key with the arguments of a call. Without a loaded
    /// language, and for an empty key, no translation is found.
    pub fn translate(&self, key: String, rest: Option<Vec<String>>) -> (res: Result<String, Error>)
        ensures
            self@.resources is None || key@.len() == 0 ==> res == Err::<String, Error>(
                Error::FailedToFindMatchedTranslation,
            ),
            self@.resources is Some && key@.len() > 0 ==> res is Ok && res->Ok_0@ == translation(
                self@.resources->0,
                key@,
                rest,
            ),
    {
        match &self.inner {
            Some(resources) => match invoke_translate(resources, &key, rest) {
                Ok(text) => Ok(text),
                Err(_) => Err(Error::FailedToFindMatchedTranslation),
            },
            None => Err(Error::FailedToFindMatchedTranslation),
        }
    }

    /// The translations of a run of keys, each under its key. Empty keys are
    /// left out; of a key that comes twice the later translation stays.
    pub open spec fn group_of(resources: Map<Seq<char>, Seq<char>>, keys: Seq<String>) -> Map<
        Seq<char>,
        Seq<char>,
    >
        decreases keys.len(),
    {
        if keys.len() == 0 {
            Map::empty()
        } else {
            let before = Self::group_of(resources, keys.drop_last());
            let key = keys.last()@;
            if key.len() == 0 {
                before
            } else {
                before.insert(key, translation(resources, key, None))
            }
        }
    }

    /// Translates a run of keys. Without a loaded language there is no
    /// source to draw on.
    pub fn translate_group(&self, keys: Vec<String>) -> (res: Result<TextMap<String>, Error>)
        ensures
            self@.resources is None ==> res matches Err(Error::EmptyTranslationSource),
            self@.resources is Some ==> res is Ok && texts_of(res->Ok_0@) == Self::group_of(
                self@.resources->0,
                keys@,
            ),
    {
        let resources = match &self.inner {
            Some(resources) => resources,
            None => {
                return Err(Error::EmptyTranslationSource);
            },
        };
        let mut result: TextMap<String> = TextMap::new();
        let mut i: usize = 0;
        assert(texts_of(result@) =~= Self::group_of(
            texts_of(resources@),
            keys@.subrange(0, 0),
        ));
        while i < keys.len()
            invariant
                i <= keys.len(),
                texts_of(result@) == Self::group_of(
                    texts_of(resources@),
                    keys@.subrange(0, i as int),
                ),
            decreases keys.len() - i,
        {
            assert(keys@.subrange(0, i + 1).drop_last() =~= keys@.subrange(0, i as int));
            let ghost before = result@;
            match invoke_translate(resources, &keys[i], None) {
                Ok(text) => {
                    result.insert(keys[i].clone(), text);
                    assert(texts_of(result@) =~= texts_of(before).insert(keys[i as int]@, text@));
                },
                Err(_) => {},
            }
            i += 1;
        }
        assert(keys@.subrange(0, i as int) =~= keys@);
        Ok(result)
    }
}

} // verus!
