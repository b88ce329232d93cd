//! The events that tell of changes to the settings.

use vstd::prelude::*;
use vstd::string::StringExecFns;
use crate::events::IntoEventName;

verus! {

/// The payload of an event that carries nothing.
#[derive(Clone, Copy, Debug, Default)]
pub struct NonePayload;

/// The payload of the event that tells of a setting's new value.
#[derive(Debug)]
pub struct SettingsSetPayload {
    pub key: String,
    pub value: serde_json::Value,
}

/// The events of the settings.
#[derive(Clone, Copy, Debug, PartialEq, Eq, Structural)]
pub enum SettingsEvents {
    /// The settings went back to their defaults.
    Reset,
    /// One setting was given a value.
    SetItem,
    /// The settings were loaded.
    Initialized,
}

impl IntoEventName for SettingsEvents {
    open spec fn event_name(&self) -> Seq<char> {
        match self {
            SettingsEvents::Reset => "plugins:setting:reset"@,
            SettingsEvents::SetItem => "plugins:setting:set"@,
            SettingsEvents::Initialized => "plugins:setting:initialized"@,
        }
    }

    fn into_event_name(self) -> (name: &'static str) {
        match self {
            SettingsEvents::Reset => "plugins:setting:reset",
            SettingsEvents::SetItem => "plugins:setting:set",
            SettingsEvents::Initialized => "plugins:setting:initialized",
        }
    }
}

impl SettingsEvents {
    /// The name of the event as an owned text.
    pub fn to_string(&self) -> (name: String)
        ensures
            name@ == self.event_name(),
    {
        String::from_str(self.into_event_name())
    }
}

} // verus!
