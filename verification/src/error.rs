//! The failures a command can report, and the text shown for each.

use vstd::prelude::*;
use vstd::string::StringExecFns;
use crate::response::{Response, ResponseStatus};

verus! {

/// Everything that can go wrong behind a command. Variants that wrap a
/// failure of the transport, the configuration store or the JSON codec carry
/// that failure's own message.
#[derive(Debug)]
pub enum Error {
    InternalError,
    UnexpectedIssue,
    InvalidGuid,
    FailedToGetRelatedConfig(String),
    FailedToGetCachedConnectionsInfo,
    FailedToParseCachedConnectionsInfo,
    FailedToParseConnectionInfo,
    FailedToSaveConnectionInfo,
    FailedToFindTheMatchedConnectionInfo,
    FailedToGetCachedMiscsInfo,
    FailedToParseCachedMiscsInfo,
    RedisInternalError(String),
    AlreadyAPendingRedisConnection,
    SerdeJsonError(String),
    FailedToFindExistedRedisConnection,
    FailedToGetRedisScanResult,
    FailedToSendHTTPRequest,
    InvalidRedisKeyType,
    InvalidRedisKeyName,
}

pub type Result<T> = core::result::Result<T, Error>;

impl Error {
    /// The text a user sees for this error.
    pub open spec fn message_spec(self) -> Seq<char> {
        match self {
            Error::InternalError => "Internal error."@,
            Error::UnexpectedIssue => "Unexpected issue."@,
            Error::InvalidGuid => "Invalid guid."@,
            Error::FailedToGetRelatedConfig(m) => m@,
            Error::FailedToGetCachedConnectionsInfo => "Failed to get the cached connections info."@,
            Error::FailedToParseCachedConnectionsInfo => "Failed to parse the cached connections info."@,
            Error::FailedToParseConnectionInfo => "Failed to parse the connection info."@,
            Error::FailedToSaveConnectionInfo => "Failed to save the connection info."@,
            Error::FailedToFindTheMatchedConnectionInfo => "Failed to find the matched connection info."@,
            Error::FailedToGetCachedMiscsInfo => "Failed to get the cached miscs info."@,
            Error::FailedToParseCachedMiscsInfo => "Failed to parse the cached miscs info."@,
            Error::RedisInternalError(m) => m@,
            Error::AlreadyAPendingRedisConnection => "Already a pending redis connection."@,
            Error::SerdeJsonError(m) => m@,
            Error::FailedToFindExistedRedisConnection => "Failed to find existed redis connection."@,
            Error::FailedToGetRedisScanResult => "Failed to get the redis scan result."@,
            Error::FailedToSendHTTPRequest => "Failed to send the HTTP request."@,
            Error::InvalidRedisKeyType => "Invalid redis key type."@,
            Error::InvalidRedisKeyName => "Invalid redis key name."@,
        }
    }

    /// The text a user sees for this error.
    pub fn message(&self) -> (text: String)
        ensures
            text@ == self.message_spec(),
    {
        match self {
            Error::InternalError => String::from_str("Internal error."),
            Error::UnexpectedIssue => String::from_str("Unexpected issue."),
            Error::InvalidGuid => String::from_str("Invalid guid."),
            Error::FailedToGetRelatedConfig(m) => m.clone(),
            Error::FailedToGetCachedConnectionsInfo => String::from_str(
                "Failed to get the cached connections info.",
            ),
            Error::FailedToParseCachedConnectionsInfo => String::from_str(
                "Failed to parse the cached connections info.",
            ),
            Error::FailedToParseConnectionInfo => String::from_str(
                "Failed to parse the connection info.",
            ),
            Error::FailedToSaveConnectionInfo => String::from_str(
                "Failed to save the connection info.",
            ),
            Error::FailedToFindTheMatchedConnectionInfo => String::from_str(
                "Failed to find the matched connection info.",
            ),
            Error::FailedToGetCachedMiscsInfo => String::from_str(
                "Failed to get the cached miscs info.",
            ),
            Error::FailedToParseCachedMiscsInfo => String::from_str(
                "Failed to parse the cached miscs info.",
            ),
            Error::RedisInternalError(m) => m.clone(),
            Error::AlreadyAPendingRedisConnection => String::from_str(
                "Already a pending redis connection.",
            ),
            Error::SerdeJsonError(m) => m.clone(),
            Error::FailedToFindExistedRedisConnection => String::from_str(
                "Failed to find existed redis connection.",
            ),
            Error::FailedToGetRedisScanResult => String::from_str(
                "Failed to get the redis scan result.",
            ),
            Error::FailedToSendHTTPRequest => String::from_str("Failed to send the HTTP request."),
            Error::InvalidRedisKeyType => String::from_str("Invalid redis key type."),
            Error::InvalidRedisKeyName => String::from_str("Invalid redis key name."),
        }
    }

    /// The failed response that reports this error: its message, no payload.
    pub fn into_response<Data>(self) -> (res: Response<Data>)
        ensures
            res.status == ResponseStatus::Failed,
            res.message@ == self.message_spec(),
            res.data is None,
    {
        let text = self.message();
        Response::failed(text, None)
    }
}

} // verus!
