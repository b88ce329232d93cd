//! The events that tell of changes to the language.

use vstd::prelude::*;
use vstd::string::StringExecFns;
use crate::events::IntoEventName;

verus! {

/// The payload of an event that carries nothing.
#[derive(Clone, Copy, Debug, Default)]
pub struct NonePayload;

/// The payload of the event that tells of a new language.
#[derive(Clone, Debug)]
pub struct TranslationSwitchLanguagePayload {
    pub language: String,
}

/// The events of the translations.
#[derive(Clone, Copy, Debug, PartialEq, Eq, Structural)]
pub enum TranslationEvents {
    /// Another language was chosen.
    SwitchLanguage,
    /// The translations were loaded.
    Initialized,
}

impl IntoEventName for TranslationEvents {
    open spec fn event_name(&self) -> Seq<char> {
        match self {
            TranslationEvents::SwitchLanguage => "plugins:translation:switch-language"@,
            TranslationEvents::Initialized => "plugins:translation:initialized"@,
        }
    }

    fn into_event_name(self) -> (name: &'static str) {
        match self {
            TranslationEvents::SwitchLanguage => "plugins:translation:switch-language",
            TranslationEvents::Initialized => "plugins:translation:initialized",
        }
    }
}

impl TranslationEvents {
    /// The name of the event as an owned text.
    pub fn to_string(&self) -> (name: String)
        ensures
            name@ == self.event_name(),
    {
        String::from_str(self.into_event_name())
    }

    /// The payload that tells of `language` as the new language.
    pub fn calc_switch_language_payload(language: String) -> (payload:
        TranslationSwitchLanguagePayload)
        ensures
            payload.language == language,
    {
        TranslationSwitchLanguagePayload { language }
    }
}

} // verus!
