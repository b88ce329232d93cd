//! The settings in memory: what the user chose, the defaults behind it, and
//! the presets to choose from.

use vstd::prelude::*;
use crate::cache::{FileCache, FileCacheModel, FileWrite};
use crate::json::{clone_value, json_of, json_pretty};
use crate::setting::error::Error;
use crate::text_map::TextMap;

verus! {

pub type SettingsMapValue = serde_json::Value;

pub type SettingsMap = TextMap<serde_json::Value>;

/// Settings by key, as a mathematical value.
pub type SettingsModel = Map<Seq<char>, serde_json::Value>;

/// The settings and the presets, to show both.
pub struct SettingsResources {
    pub settings: SettingsMap,
    pub presets: SettingsMap,
}

/// The presets and the cache of their file.
pub struct SettingsPresets {
    cache: FileCache,
    inner: Option<SettingsMap>,
}

/// The settings, the cache of their file, the defaults and the presets.
pub struct Settings {
    cache: FileCache,
    inner: Option<SettingsMap>,
    default_inner: SettingsMap,
    presets: SettingsPresets,
}

/// A copy of the settings, key by key, in the same order.
pub fn copy_settings(map: &SettingsMap) -> (copy: SettingsMap)
    ensures
        copy@ == map@,
        copy.order() == map.order(),
{
    let mut copy: SettingsMap = TextMap::new();
    let count = map.len();
    let mut i: usize = 0;
    while i < count
        invariant
            count == map.order().len(),
            map.order().no_duplicates(),
            i <= count,
            copy.order() == map.order().subrange(0, i as int),
            forall|k: Seq<char>| #[trigger]
                copy@.contains_key(k) ==> map@.contains_key(k) && copy@[k] == map@[k],
            forall|j: int| 0 <= j < i ==> copy@.contains_key(map.order()[j]),
        decreases count - i,
    {
        let key = map.key_at(i);
        let value = map.value_at(i);
        let ghost before = copy;
        proof {
            before.lemma_order_covers();
            map.lemma_order_covers();
        }
        let held = copy.contains_key(key);
        copy.insert(key.clone(), clone_value(value));
        proof {
            // A key that is held stands in the order copied so far, and so
            // would stand twice in the order of `map`: there and at `i`.
            if held {
                assert(before.order().contains(key@));
                let j = choose|j: int| 0 <= j < before.order().len() && before.order()[j] == key@;
                assert(map.order()[j] == map.order()[i as int]);
            }
            assert(!held);
            assert(copy.order() =~= map.order().subrange(0, i + 1));
            assert(copy@ == before@.insert(key@, *value));
            assert forall|k: Seq<char>| #[trigger] copy@.contains_key(k) implies map@.contains_key(
                k,
            ) && copy@[k] == map@[k] by {
                if k != key@ {
                    assert(before@.contains_key(k));
                    assert(map@.contains_key(k));
                    assert(before@[k] == map@[k]);
                    assert(copy@[k] == before@[k]);
                } else {
                    assert(map@.contains_key(key@));
                    assert(map@[key@] == *value);
                    assert(copy@[key@] == *value);
                }
            }
            assert forall|j: int| 0 <= j < i + 1 implies copy@.contains_key(map.order()[j]) by {
                if j < i {
                    assert(before@.contains_key(map.order()[j]));
                }
            }
        }
        i += 1;
    }
    proof {
        map.lemma_order_covers();
        copy.lemma_order_covers();
        assert(map.order().subrange(0, i as int) =~= map.order());
        assert forall|k: Seq<char>| map@.contains_key(k) implies copy@.contains_key(k) by {
            assert(map.order().contains(k));
            let j = choose|j: int| 0 <= j < map.order().len() && map.order()[j] == k;
            assert(copy@.contains_key(map.order()[j]));
        }
        assert(copy@ =~= map@);
    }
    copy
}

impl Settings {
    /// The settings the user chose, if they are loaded.
    pub closed spec fn chosen(&self) -> Option<SettingsModel> {
        match self.inner {
            Some(map) => Some(map@),
            None => None,
        }
    }

    /// The defaults.
    pub closed spec fn defaults(&self) -> SettingsModel {
        self.default_inner@
    }

    /// The presets, if they are loaded.
    pub closed spec fn preset_values(&self) -> Option<SettingsModel> {
        match self.presets.inner {
            Some(map) => Some(map@),
            None => None,
        }
    }

    /// The cache of the settings file.
    pub closed spec fn file(&self) -> FileCacheModel {
        self.cache@
    }

    /// The cache of the presets file.
    pub closed spec fn presets_file(&self) -> FileCacheModel {
        self.presets.cache@
    }

    /// Settings whose file lives in `directory`. The defaults, where there
    /// are any, are also what the user starts with.
    pub fn new(
        directory: String,
        defaults: Option<SettingsMap>,
        presets_cache: FileCache,
        presets: Option<SettingsMap>,
    ) -> (settings: Self)
        ensures
            settings.file() == (FileCacheModel {
                value: None,
                directory: directory@,
                filename: None,
                filepath: None,
            }),
            match defaults {
                Some(map) => settings.chosen() == Some(map@) && settings.defaults() == map@,
                None => settings.chosen() is None && settings.defaults()
                    == Map::<Seq<char>, serde_json::Value>::empty(),
            },
            match presets {
                Some(map) => settings.preset_values() == Some(map@),
                None => settings.preset_values() is None,
            },
            settings.presets_file() == presets_cache@,
    {
        let (inner, default_inner) = match defaults {
            Some(map) => (Some(copy_settings(&map)), map),
            None => (None, TextMap::new()),
        };
        Settings {
            cache: FileCache::new(directory),
            inner,
            default_inner,
            presets: SettingsPresets { cache: presets_cache, inner: presets },
        }
    }

    /// The cache of the settings file.
    pub fn cache(&mut self) -> (cache: &mut FileCache)
        ensures
            cache@ == old(self).file(),
            final(self).file() == final(cache)@,
            final(self).chosen() == old(self).chosen(),
            final(self).defaults() == old(self).defaults(),
            final(self).preset_values() == old(self).preset_values(),
            final(self).presets_file() == old(self).presets_file(),
    {
        &mut self.cache
    }

    /// The cache of the presets file.
    pub fn presets_cache(&self) -> (cache: &FileCache)
        ensures
            cache@ == self.presets_file(),
    {
        &self.presets.cache
    }

    /// The settings the user chose, if they are loaded.
    pub fn inner(&self) -> (inner: Option<&SettingsMap>)
        ensures
            match inner {
                Some(map) => self.chosen() == Some(map@),
                None => self.chosen() is None,
            },
    {
        self.inner.as_ref()
    }

    /// The presets, if they are loaded.
    pub fn presets(&self) -> (inner: Option<&SettingsMap>)
        ensures
            match inner {
                Some(map) => self.preset_values() == Some(map@),
                None => self.preset_values() is None,
            },
    {
        self.presets.inner.as_ref()
    }

    /// Takes the settings that were read from the settings file.
    pub fn load(&mut self, loaded: SettingsMap)
        ensures
            final(self).chosen() == Some(loaded@),
            final(self).defaults() == old(self).defaults(),
            final(self).preset_values() == old(self).preset_values(),
            final(self).presets_file() == old(self).presets_file(),
            final(self).file() == old(self).file(),
    {
        self.inner = Some(loaded);
    }

    /// Says what to write to the settings file: `object`, the settings as one
    /// JSON object, indented. The cache takes the object as its value.
    pub fn save(&mut self, object: serde_json::Value) -> (res: Result<FileWrite, Error>)
        ensures
            final(self).chosen() == old(self).chosen(),
            final(self).defaults() == old(self).defaults(),
            final(self).preset_values() == old(self).preset_values(),
            final(self).presets_file() == old(self).presets_file(),
            final(self).file() == (FileCacheModel { value: Some(object), ..old(self).file() }),
            old(self).file().filepath is None ==> res matches Err(Error::FailedToSaveSettings),
            old(self).file().filepath is Some ==> {
                &&& res matches Ok(write)
                &&& Some(write.filepath@) == old(self).file().filepath
                &&& write.content@ == json_pretty(json_of(object))
            },
    {
        let _ = self.cache.replace(object);
        match self.cache.save(true) {
            Ok(write) => Ok(write),
            Err(_) => Err(Error::FailedToSaveSettings),
        }
    }

    /// Puts the defaults in the place of what the user chose.
    pub fn reset(&mut self) -> (res: Result<(), Error>)
        ensures
            res is Ok,
            final(self).chosen() == Some(old(self).defaults()),
            final(self).defaults() == old(self).defaults(),
            final(self).preset_values() == old(self).preset_values(),
            final(self).presets_file() == old(self).presets_file(),
            final(self).file() == old(self).file(),
    {
        self.inner = Some(copy_settings(&self.default_inner));
        Ok(())
    }

    /// What `key` is set to: what the user chose, or the default where the
    /// user chose nothing.
    pub open spec fn value_of(&self, key: Seq<char>) -> Option<serde_json::Value> {
        if self.chosen() is Some && self.chosen()->0.contains_key(key) {
            Some(self.chosen()->0[key])
        } else if self.defaults().contains_key(key) {
            Some(self.defaults()[key])
        } else {
            None
        }
    }

    /// The preset kept under `key`.
    pub open spec fn preset_of(&self, key: Seq<char>) -> Option<serde_json::Value> {
        if self.preset_values() is Some && self.preset_values()->0.contains_key(key) {
            Some(self.preset_values()->0[key])
        } else {
            None
        }
    }

    /// What `key` is set to.
    pub fn get(&self, key: &String) -> (value: Option<&serde_json::Value>)
        ensures
            match value {
                Some(v) => self.value_of(key@) == Some(*v),
                None => self.value_of(key@) is None,
            },
    {
        let chosen = match &self.inner {
            Some(map) => map.get(key),
            None => None,
        };
        match chosen {
            Some(v) => Some(v),
            None => self.default_inner.get(key),
        }
    }

    /// What `key` is set to, to be decoded by the caller. A key that is set
    /// to nothing is an error.
    pub fn get_de(&self, key: &String) -> (res: Result<&serde_json::Value, Error>)
        ensures
            match res {
                Ok(v) => self.value_of(key@) == Some(*v),
                Err(e) => self.value_of(key@) is None && e is FailedToGetTargetSettingItem,
            },
    {
        match self.get(key) {
            Some(v) => Ok(v),
            None => Err(Error::FailedToGetTargetSettingItem),
        }
    }

    /// The preset kept under `key`.
    pub fn get_presets(&self, key: &String) -> (value: Option<&serde_json::Value>)
        ensures
            match value {
                Some(v) => self.preset_of(key@) == Some(*v),
                None => self.preset_of(key@) is None,
            },
    {
        match &self.presets.inner {
            Some(map) => map.get(key),
            None => None,
        }
    }

    /// The preset kept under `key`, to be decoded by the caller. A key
    /// without a preset is an error.
    pub fn get_presets_de(&self, key: &String) -> (res: Result<&serde_json::Value, Error>)
        ensures
            match res {
                Ok(v) => self.preset_of(key@) == Some(*v),
                Err(e) => self.preset_of(key@) is None && e is FailedToGetTargetSettingPresetsItem,
            },
    {
        match self.get_presets(key) {
            Some(v) => Ok(v),
            None => Err(Error::FailedToGetTargetSettingPresetsItem),
        }
    }

    /// Gives `key` the value `value` among what the user chose, and hands
    /// back what it was set to before.
    pub fn insert(&mut self, key: String, value: serde_json::Value) -> (before: Option<
        serde_json::Value,
    >)
        requires
            old(self).chosen() is Some,
        ensures
            final(self).chosen() == Some(old(self).chosen()->0.insert(key@, value)),
            before == if old(self).chosen()->0.contains_key(key@) {
                Some(old(self).chosen()->0[key@])
            } else {
                None
            },
            final(self).defaults() == old(self).defaults(),
            final(self).preset_values() == old(self).preset_values(),
            final(self).presets_file() == old(self).presets_file(),
            final(self).file() == old(self).file(),
    {
        let mut map = match self.inner.take() {
            Some(map) => map,
            None => TextMap::new(),
        };
        let before = map.insert(key, value);
        self.inner = Some(map);
        before
    }
}

} // verus!
