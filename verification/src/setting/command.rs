//! The commands on the settings.

use vstd::prelude::*;
use crate::json::clone_value;
use crate::setting::error::Error;
use crate::setting::events::SettingsSetPayload;
use crate::setting::state::{copy_settings, Settings, SettingsMap, SettingsResources};

verus! {

/// The settings and the presets, for the user interface to show. Both have
/// to be loaded.
pub fn resources(state: &Settings) -> (res: Result<SettingsResources, Error>)
    ensures
        match res {
            Ok(shown) => state.chosen() == Some(shown.settings@) && state.preset_values() == Some(
                shown.presets@,
            ),
            Err(e) => (state.chosen() is None || state.preset_values() is None)
                && e is FailedToLoadTheSettingFile,
        },
{
    let settings = match state.inner() {
        Some(map) => copy_settings(map),
        None => {
            return Err(Error::FailedToLoadTheSettingFile);
        },
    };
    let presets = match state.presets() {
        Some(map) => copy_settings(map),
        None => {
            return Err(Error::FailedToLoadTheSettingFile);
        },
    };
    Ok(SettingsResources { settings, presets })
}

/// What the user chose. The settings have to be loaded.
pub fn settings(state: &Settings) -> (res: Result<SettingsMap, Error>)
    ensures
        match res {
            Ok(map) => state.chosen() == Some(map@),
            Err(e) => state.chosen() is None && e is FailedToLoadTheSettingFile,
        },
{
    match state.inner() {
        Some(map) => Ok(copy_settings(map)),
        None => Err(Error::FailedToLoadTheSettingFile),
    }
}

/// The presets. They have to be loaded.
pub fn presets(state: &Settings) -> (res: Result<SettingsMap, Error>)
    ensures
        match res {
            Ok(map) => state.preset_values() == Some(map@),
            Err(e) => state.preset_values() is None && e is FailedToLoadTheSettingFile,
        },
{
    match state.presets() {
        Some(map) => Ok(copy_settings(map)),
        None => Err(Error::FailedToLoadTheSettingFile),
    }
}

/// What `key` is set to. An empty key is refused.
pub fn get(state: &Settings, key: String) -> (res: Result<serde_json::Value, Error>)
    ensures
        key@.len() == 0 ==> res matches Err(Error::InvalidParameter),
        key@.len() > 0 ==> match res {
            Ok(value) => state.value_of(key@) == Some(value),
            Err(e) => state.value_of(key@) is None && e is FailedToGetTargetSettingItem,
        },
{
    if key.as_str().is_empty() {
        return Err(Error::InvalidParameter);
    }
    match state.get(&key) {
        Some(value) => Ok(clone_value(value)),
        None => Err(Error::FailedToGetTargetSettingItem),
    }
}

/// The preset kept under `key`. An empty key is refused.
pub fn get_preset(state: &Settings, key: String) -> (res: Result<serde_json::Value, Error>)
    ensures
        key@.len() == 0 ==> res matches Err(Error::InvalidParameter),
        key@.len() > 0 ==> match res {
            Ok(value) => state.preset_of(key@) == Some(value),
            Err(e) => state.preset_of(key@) is None && e is FailedToGetTargetSettingPresetsItem,
        },
{
    if key.as_str().is_empty() {
        return Err(Error::InvalidParameter);
    }
    match state.get_presets(&key) {
        Some(value) => Ok(clone_value(value)),
        None => Err(Error::FailedToGetTargetSettingPresetsItem),
    }
}

/// Gives the setting `key` a new value. An empty key is refused and changes
/// nothing. Otherwise the value is taken, and only a setting that the user
/// had chosen before counts as set: for any other key the request fails
/// though the value stays. What comes back is the payload of the event to
/// raise, once the settings are saved.
pub fn set(state: &mut Settings, key: String, value: serde_json::Value) -> (res: Result<
    SettingsSetPayload,
    Error,
>)
    requires
        old(state).chosen() is Some,
    ensures
        final(state).defaults() == old(state).defaults(),
        final(state).preset_values() == old(state).preset_values(),
        final(state).presets_file() == old(state).presets_file(),
        final(state).file() == old(state).file(),
        key@.len() == 0 ==> (res matches Err(Error::InvalidParameter)) && final(state).chosen()
            == old(state).chosen(),
        key@.len() > 0 ==> {
            &&& final(state).chosen() == Some(old(state).chosen()->0.insert(key@, value))
            &&& match res {
                Ok(payload) => old(state).chosen()->0.contains_key(key@) && payload.key@ == key@
                    && payload.value == value,
                Err(e) => !old(state).chosen()->0.contains_key(key@)
                    && e is FailedToSetTargetSettingItem,
            }
        },
{
    if key.as_str().is_empty() {
        return Err(Error::InvalidParameter);
    }
    let payload = SettingsSetPayload { key: key.clone(), value: clone_value(&value) };
    match state.insert(key, value) {
        Some(_) => Ok(payload),
        None => Err(Error::FailedToSetTargetSettingItem),
    }
}

/// Puts the defaults in the place of what the user chose.
pub fn reset(state: &mut Settings) -> (res: Result<(), Error>)
    ensures
        res is Ok,
        final(state).chosen() == Some(old(state).defaults()),
        final(state).defaults() == old(state).defaults(),
        final(state).preset_values() == old(state).preset_values(),
        final(state).presets_file() == old(state).presets_file(),
        final(state).file() == old(state).file(),
{
    state.reset()
}

} // verus!
