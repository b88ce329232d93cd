//! The failures of the translations.

use vstd::prelude::*;
use vstd::string::StringExecFns;

verus! {

/// Everything that can go wrong with the translations.
#[derive(Clone, Copy, Debug, PartialEq, Eq, Structural)]
pub enum Error {
    FailedToFindMatchedTranslation,
    EmptyTranslationSource,
    FailedToFindTargetTranslationFolder,
    FailedToFindTargetTranslationFile,
    FailedToParseTargetTranslationFile,
    InvalidParameter,
}

pub type Result<T> = core::result::Result<T, Error>;

impl Error {
    /// The text a user sees for this error.
    pub open spec fn message_spec(self) -> Seq<char> {
        match self {
            Error::FailedToFindMatchedTranslation => "Failed to find the matched translation."@,
            Error::EmptyTranslationSource => "Empty translation source."@,
            Error::FailedToFindTargetTranslationFolder => "Failed to find the target translation folder."@,
            Error::FailedToFindTargetTranslationFile => "Failed to find the target translation file."@,
            Error::FailedToParseTargetTranslationFile => "Failed to parse the target translation file."@,
            Error::InvalidParameter => "Invalid parameter."@,
        }
    }

    /// The text a user sees for this error.
    pub fn message(&self) -> (text: String)
        ensures
            text@ == self.message_spec(),
    {
        match self {
            Error::FailedToFindMatchedTranslation => String::from_str(
                "Failed to find the matched translation.",
            ),
            Error::EmptyTranslationSource => String::from_str("Empty translation source."),
            Error::FailedToFindTargetTranslationFolder => String::from_str(
                "Failed to find the target translation folder.",
            ),
            Error::FailedToFindTargetTranslationFile => String::from_str(
                "Failed to find the target translation file.",
            ),
            Error::FailedToParseTargetTranslationFile => String::from_str(
                "Failed to parse the target translation file.",
            ),
            Error::InvalidParameter => String::from_str("Invalid parameter."),
        }
    }
}

} // verus!
