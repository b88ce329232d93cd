//! The failures of the settings.

use vstd::prelude::*;
use vstd::string::StringExecFns;

verus! {

/// Everything that can go wrong with the settings.
#[derive(Debug)]
pub enum Error {
    FailedToLoadTheSettingFile,
    FailedToParseTheSettingFile,
    FailedToGetTargetSettingItem,
    FailedToParseTargetSettingItem,
    FailedToSetTargetSettingItem,
    FailedToSaveSettings,
    FailedToGetTargetSettingPresetsItem,
    FailedToParseTargetSettingPresetsItem,
    InvalidParameter,
    /// A failure of the window layer, with its message.
    TauriInternalError(String),
}

pub type Result<T> = core::result::Result<T, Error>;

impl Error {
    /// The text a user sees for this error.
    pub open spec fn message_spec(self) -> Seq<char> {
        match self {
            Error::FailedToLoadTheSettingFile => "Failed to load the setting file."@,
            Error::FailedToParseTheSettingFile => "Failed to parse the setting file."@,
            Error::FailedToGetTargetSettingItem => "Failed to get target setting item."@,
            Error::FailedToParseTargetSettingItem => "Failed to Parse target setting item."@,
            Error::FailedToSetTargetSettingItem => "Failed to set target setting item."@,
            Error::FailedToSaveSettings => "Failed to save settings."@,
            Error::FailedToGetTargetSettingPresetsItem => "Failed to get target setting presets item."@,
            Error::FailedToParseTargetSettingPresetsItem => "Failed to Parse target setting presets item."@,
            Error::InvalidParameter => "Invalid parameter."@,
            Error::TauriInternalError(m) => m@,
        }
    }

    /// The text a user sees for this error.
    pub fn message(&self) -> (text: String)
        ensures
            text@ == self.message_spec(),
    {
        match self {
            Error::FailedToLoadTheSettingFile => String::from_str(
                "Failed to load the setting file.",
            ),
            Error::FailedToParseTheSettingFile => String::from_str(
                "Failed to parse the setting file.",
            ),
            Error::FailedToGetTargetSettingItem => String::from_str(
                "Failed to get target setting item.",
            ),
            Error::FailedToParseTargetSettingItem => String::from_str(
                "Failed to Parse target setting item.",
            ),
            Error::FailedToSetTargetSettingItem => String::from_str(
                "Failed to set target setting item.",
            ),
            Error::FailedToSaveSettings => String::from_str("Failed to save settings."),
            Error::FailedToGetTargetSettingPresetsItem => String::from_str(
                "Failed to get target setting presets item.",
            ),
            Error::FailedToParseTargetSettingPresetsItem => String::from_str(
                "Failed to Parse target setting presets item.",
            ),
            Error::InvalidParameter => String::from_str("Invalid parameter."),
            Error::TauriInternalError(m) => m.clone(),
        }
    }
}

} // verus!
