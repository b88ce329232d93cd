//! Caches of JSON values: one in memory, keyed by text, and one that mirrors
//! a file.

use vstd::prelude::*;
use vstd::string::StringExecFns;
use crate::json::{
    clone_value, json_of, json_parsed, json_pretty, json_text, json_text_pretty, parse_json,
};
use crate::text::{decimal, digits, join_path, opt_text, quote, quoted};
use crate::text_map::TextMap;

verus! {

/// Why a cache refuses a request.
#[derive(Debug)]
pub enum CacheError {
    /// Nothing is kept under this key.
    MissingKey(String),
    /// The key is taken, and the cache does not overwrite.
    KeyExists(String),
    /// The cache is full; it holds this many keys.
    TooManyKeys(usize),
    /// The file cache holds no value.
    EmptyFileCache,
    /// The file to load holds nothing.
    EmptyContent,
    /// The file cache was never told which file it mirrors.
    NotLoaded,
    /// The JSON codec failed, with this message.
    Json(String),
}

impl CacheError {
    /// The text a user sees for this error.
    pub open spec fn message_spec(self) -> Seq<char> {
        match self {
            CacheError::MissingKey(key) => "Failed to get the value of the key "@ + quoted(key@),
            CacheError::KeyExists(key) => "The key "@ + quoted(key@) + " is already existed"@,
            CacheError::TooManyKeys(count) => "Maximum keys("@ + decimal(count) + ") exceed."@,
            CacheError::EmptyFileCache => "Empty file cache!"@,
            CacheError::EmptyContent => "Empty content."@,
            CacheError::NotLoaded => "Please correctly exec 'load' fn first."@,
            CacheError::Json(message) => message@,
        }
    }

    /// The text a user sees for this error.
    pub fn message(&self) -> (text: String)
        ensures
            text@ == self.message_spec(),
    {
        match self {
            CacheError::MissingKey(key) => String::from_str(
                "Failed to get the value of the key ",
            ).concat(quote(key.as_str()).as_str()),
            CacheError::KeyExists(key) => String::from_str("The key ").concat(
                quote(key.as_str()).as_str(),
            ).concat(" is already existed"),
            CacheError::TooManyKeys(count) => String::from_str("Maximum keys(").concat(
                digits(*count).as_str(),
            ).concat(") exceed."),
            CacheError::EmptyFileCache => String::from_str("Empty file cache!"),
            CacheError::EmptyContent => String::from_str("Empty content."),
            CacheError::NotLoaded => String::from_str("Please correctly exec 'load' fn first."),
            CacheError::Json(message) => message.clone(),
        }
    }
}

/// The limits of a cache.
#[derive(Clone, Copy, Debug)]
pub struct CacheOptions {
    max_keys: usize,
    enable_conflicts_set: bool,
}

impl CacheOptions {
    /// How many keys the cache takes.
    pub closed spec fn max_keys_spec(&self) -> usize {
        self.max_keys
    }

    /// Whether a key that is taken can be given a new value.
    pub closed spec fn enable_conflicts_set_spec(&self) -> bool {
        self.enable_conflicts_set
    }

    /// How many keys the cache takes.
    pub fn max_keys(&self) -> (max_keys: usize)
        ensures
            max_keys == self.max_keys_spec(),
    {
        self.max_keys
    }

    /// Whether a key that is taken can be given a new value.
    pub fn enable_conflicts_set(&self) -> (enabled: bool)
        ensures
            enabled == self.enable_conflicts_set_spec(),
    {
        self.enable_conflicts_set
    }
}

impl Default for CacheOptions {
    /// Room for 5000 keys, and no overwriting.
    fn default() -> (options: Self)
        ensures
            options.max_keys_spec() == 5000,
            !options.enable_conflicts_set_spec(),
    {
        CacheOptions { max_keys: 5000, enable_conflicts_set: false }
    }
}

/// A cache of JSON values in memory.
pub struct Cache {
    inner: TextMap<serde_json::Value>,
    options: CacheOptions,
}

impl View for Cache {
    type V = Map<Seq<char>, serde_json::Value>;

    closed spec fn view(&self) -> Map<Seq<char>, serde_json::Value> {
        self.inner@
    }
}

impl Cache {
    /// The limits of the cache.
    pub closed spec fn limits(&self) -> CacheOptions {
        self.options
    }

    /// An empty cache with the default limits.
    pub fn new() -> (cache: Self)
        ensures
            cache@ == Map::<Seq<char>, serde_json::Value>::empty(),
            cache.limits().max_keys_spec() == 5000,
            !cache.limits().enable_conflicts_set_spec(),
    {
        Cache { inner: TextMap::new(), options: CacheOptions::default() }
    }

    /// How many keys the cache holds.
    pub fn len(&self) -> (count: usize)
        ensures
            count == self@.dom().len(),
    {
        self.inner.len()
    }

    /// The value kept under `key`.
    pub fn get(&self, key: &String) -> (res: Result<&serde_json::Value, CacheError>)
        ensures
            match res {
                Ok(value) => self@.contains_key(key@) && *value == self@[key@],
                Err(e) => !self@.contains_key(key@) && e == CacheError::MissingKey(*key),
            },
    {
        match self.inner.get(key) {
            Some(value) => Ok(value),
            None => Err(CacheError::MissingKey(key.clone())),
        }
    }

    /// Keeps a copy of `value` under `key`. A key that is taken is refused
    /// unless the cache overwrites. A cache that holds as many keys as it
    /// takes refuses every request, also one for a key that is taken.
    pub fn set(&mut self, key: String, value: &serde_json::Value) -> (res: Result<(), CacheError>)
        ensures
            final(self).limits() == old(self).limits(),
            old(self)@.dom().finite(),
            if !old(self).limits().enable_conflicts_set_spec() && old(self)@.contains_key(key@) {
                res == Err::<(), CacheError>(CacheError::KeyExists(key)) && final(self)@ == old(self)@
            } else if old(self)@.dom().len() >= old(self).limits().max_keys_spec() {
                res == Err::<(), CacheError>(
                    CacheError::TooManyKeys(old(self)@.dom().len() as usize),
                ) && final(self)@ == old(self)@
            } else {
                res is Ok && final(self)@ == old(self)@.insert(key@, *value)
            },
    {
        let cur_len = self.inner.len();
        if !self.options.enable_conflicts_set && self.inner.contains_key(&key) {
            return Err(CacheError::KeyExists(key));
        }
        if cur_len >= self.options.max_keys {
            return Err(CacheError::TooManyKeys(cur_len));
        }
        self.inner.insert(key, clone_value(value));
        Ok(())
    }

    /// The limits of the cache.
    pub fn options(&self) -> (options: &CacheOptions)
        ensures
            *options == self.limits(),
    {
        &self.options
    }

    /// Sets how many keys the cache takes.
    pub fn set_options_max_key(&mut self, max_keys: usize)
        ensures
            final(self)@ == old(self)@,
            final(self).limits().max_keys_spec() == max_keys,
            final(self).limits().enable_conflicts_set_spec() == old(self).limits().enable_conflicts_set_spec(),
    {
        self.options.max_keys = max_keys;
    }

    /// Sets whether a key that is taken can be given a new value.
    pub fn set_options_enable_conflicts_set(&mut self, enable_conflicts_set: bool)
        ensures
            final(self)@ == old(self)@,
            final(self).limits().enable_conflicts_set_spec() == enable_conflicts_set,
            final(self).limits().max_keys_spec() == old(self).limits().max_keys_spec(),
    {
        self.options.enable_conflicts_set = enable_conflicts_set;
    }
}

/// The JSON value of one file, kept in memory. Reading and writing the file
/// is left to the caller: the cache says what to read, takes what was read,
/// and says what to write.
pub struct FileCache {
    inner: Option<serde_json::Value>,
    directory: String,
    filename: Option<String>,
    filepath: Option<String>,
}

/// A file cache as a mathematical value.
pub struct FileCacheModel {
    /// The value the cache holds.
    pub value: Option<serde_json::Value>,
    /// The directory of the file.
    pub directory: Seq<char>,
    /// The name of the file the value came from.
    pub filename: Option<Seq<char>>,
    /// The path noted when a load began.
    pub filepath: Option<Seq<char>>,
}

/// What is to be written where.
#[derive(Debug)]
pub struct FileWrite {
    pub filepath: String,
    pub content: String,
}

impl View for FileCache {
    type V = FileCacheModel;

    closed spec fn view(&self) -> FileCacheModel {
        FileCacheModel {
            value: self.inner,
            directory: self.directory@,
            filename: opt_text(self.filename),
            filepath: opt_text(self.filepath),
        }
    }
}

/// Whether a request to load `filename` has nothing to do: the cache holds a
/// value and it came from that file.
pub open spec fn loaded(cache: FileCacheModel, filename: Seq<char>) -> bool {
    cache.filename == Some(filename) && cache.value is Some
}

impl FileCache {
    /// A cache for a file in `directory`, with no value and no file name yet.
    pub fn new(directory: String) -> (cache: Self)
        ensures
            cache@ == (FileCacheModel {
                value: None,
                directory: directory@,
                filename: None,
                filepath: None,
            }),
    {
        FileCache { inner: None, directory, filename: None, filepath: None }
    }

    /// The value the cache holds.
    pub fn as_inner(&self) -> (value: &Option<serde_json::Value>)
        ensures
            *value == self@.value,
    {
        &self.inner
    }

    /// The directory of the file.
    pub fn directory(&self) -> (directory: &String)
        ensures
            directory@ == self@.directory,
    {
        &self.directory
    }

    /// The name of the file the value came from.
    pub fn filename(&self) -> (filename: &Option<String>)
        ensures
            opt_text(*filename) == self@.filename,
    {
        &self.filename
    }

    /// The path noted when a load began.
    pub fn filepath(&self) -> (filepath: &Option<String>)
        ensures
            opt_text(*filepath) == self@.filepath,
    {
        &self.filepath
    }

    /// Puts `value` in the place of what the cache held.
    pub fn replace(&mut self, value: serde_json::Value) -> (res: Result<(), CacheError>)
        ensures
            res is Ok,
            final(self)@ == (FileCacheModel { value: Some(value), ..old(self)@ }),
    {
        self.inner = Some(value);
        Ok(())
    }

    /// Begins to load `filename`. Where the cache holds the value of that
    /// file already, nothing is to be read and nothing changes. Otherwise
    /// the cache notes the path of the file in its directory and hands it
    /// out to be read.
    pub fn load(&mut self, filename: &String) -> (to_read: Option<String>)
        ensures
            loaded(old(self)@, filename@) ==> to_read is None && final(self)@ == old(self)@,
            !loaded(old(self)@, filename@) ==> {
                &&& to_read is Some
                &&& final(self)@ == (FileCacheModel { filepath: opt_text(to_read), ..old(self)@ })
            },
    {
        let same = match &self.filename {
            Some(f) => *f == *filename,
            None => false,
        };
        if same && self.inner.is_some() {
            return None;
        }
        let path = join_path(self.directory.as_str(), filename.as_str());
        self.filepath = Some(path.clone());
        Some(path)
    }

    /// Ends the load of `filename` with the text that was read. An empty
    /// text is refused and changes nothing. Otherwise the file name is
    /// noted, and the text is read as JSON: the value takes the place of
    /// what the cache held, or the codec's failure is reported and the old
    /// value stays.
    pub fn loaded_content(&mut self, filename: String, content: &str) -> (res: Result<
        (),
        CacheError,
    >)
        ensures
            content@.len() == 0 ==> res == Err::<(), CacheError>(CacheError::EmptyContent)
                && final(self)@ == old(self)@,
            content@.len() > 0 ==> match res {
                Ok(_) => {
                    &&& final(self)@.value matches Some(value)
                    &&& json_parsed(content@) == Some(json_of(value))
                    &&& final(self)@ == (FileCacheModel {
                        value: final(self)@.value,
                        filename: Some(filename@),
                        ..old(self)@
                    })
                },
                Err(e) => {
                    &&& e is Json
                    &&& json_parsed(content@) is None
                    &&& final(self)@ == (FileCacheModel { filename: Some(filename@), ..old(self)@ })
                },
            },
    {
        if content.is_empty() {
            return Err(CacheError::EmptyContent);
        }
        self.filename = Some(filename);
        match parse_json(content) {
            Ok(value) => {
                self.inner = Some(value);
                Ok(())
            },
            Err(message) => Err(CacheError::Json(message)),
        }
    }

    /// Says what to write to bring the file up to date: the path noted by
    /// the last load, and the text of the value, indented if `pretty`. A
    /// cache that never began a load is refused, then one without a value.
    pub fn save(&self, pretty: bool) -> (res: Result<FileWrite, CacheError>)
        ensures
            self@.filepath is None ==> res matches Err(CacheError::NotLoaded),
            self@.filepath is Some && self@.value is None ==> res matches Err(
                CacheError::EmptyFileCache,
            ),
            self@.filepath is Some && self@.value is Some ==> {
                &&& res matches Ok(write)
                &&& write.filepath@ == self@.filepath->0
                &&& write.content@ == if pretty {
                    json_pretty(json_of(self@.value->0))
                } else {
                    json_of(self@.value->0)
                }
            },
    {
        let filepath = match &self.filepath {
            Some(path) => path.clone(),
            None => {
                return Err(CacheError::NotLoaded);
            },
        };
        let value = match &self.inner {
            Some(value) => value,
            None => {
                return Err(CacheError::EmptyFileCache);
            },
        };
        let written = if pretty {
            json_text_pretty(value)
        } else {
            json_text(value)
        };
        match written {
            Ok(content) => Ok(FileWrite { filepath, content }),
            Err(message) => Err(CacheError::Json(message)),
        }
    }
}

/// The file caches of the application, each under its key.
pub struct FileCacheManager {
    inner: TextMap<FileCache>,
}

impl View for FileCacheManager {
    type V = Map<Seq<char>, FileCache>;

    closed spec fn view(&self) -> Map<Seq<char>, FileCache> {
        self.inner@
    }
}

impl FileCacheManager {
    /// A manager without caches.
    pub fn new() -> (manager: Self)
        ensures
            manager@ == Map::<Seq<char>, FileCache>::empty(),
    {
        FileCacheManager { inner: TextMap::new() }
    }

    /// Whether a cache is kept under `key`.
    pub fn contains_key(&self, key: &String) -> (found: bool)
        ensures
            found == self@.contains_key(key@),
    {
        self.inner.contains_key(key)
    }

    /// The cache kept under `key`.
    pub fn get(&self, key: &String) -> (found: Option<&FileCache>)
        ensures
            match found {
                Some(cache) => self@.contains_key(key@) && *cache == self@[key@],
                None => !self@.contains_key(key@),
            },
    {
        self.inner.get(key)
    }

    /// Keeps `cache` under `key`, unless a cache is kept there already: then
    /// that one stays.
    pub fn or_insert(&mut self, key: String, cache: FileCache)
        ensures
            final(self)@ == if old(self)@.contains_key(key@) {
                old(self)@
            } else {
                old(self)@.insert(key@, cache)
            },
    {
        if !self.inner.contains_key(&key) {
            self.inner.insert(key, cache);
        }
    }

    /// Takes the cache kept under `key` out, to work on it.
    pub fn take(&mut self, key: &String) -> (cache: Option<FileCache>)
        ensures
            final(self)@ == old(self)@.remove(key@),
            cache == if old(self)@.contains_key(key@) {
                Some(old(self)@[key@])
            } else {
                None
            },
    {
        self.inner.remove(key)
    }

    /// Puts `cache` under `key`, in the place of what was kept there.
    pub fn put(&mut self, key: String, cache: FileCache)
        ensures
            final(self)@ == old(self)@.insert(key@, cache),
    {
        self.inner.insert(key, cache);
    }
}

} // verus!
