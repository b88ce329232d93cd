//! The tagged result every command hands back to the user interface.

use vstd::prelude::*;
use vstd::string::StringExecFns;

verus! {

/// How a command ended.
#[derive(Clone, Copy, Debug, PartialEq, Eq, Structural)]
pub enum ResponseStatus {
    Success,
    Failed,
    Warning,
}

/// A status, a message for the user, and an optional payload.
#[derive(Debug)]
pub struct Response<Data> {
    pub status: ResponseStatus,
    pub message: String,
    pub data: Option<Data>,
}

/// The message of a response that carries no message of its own.
pub open spec fn default_message() -> Seq<char> {
    "ok"@
}

impl<Data> Response<Data> {
    /// A successful response with the message `ok` and no payload.
    pub fn default() -> (res: Self)
        ensures
            res.status == ResponseStatus::Success,
            res.message@ == default_message(),
            res.data is None,
    {
        Response { status: ResponseStatus::Success, message: String::from_str("ok"), data: None }
    }

    /// A successful response. A missing message falls back to `ok`.
    pub fn success(data: Option<Data>, message: Option<String>) -> (res: Self)
        ensures
            res.status == ResponseStatus::Success,
            res.data == data,
            res.message@ == match message {
                Some(m) => m@,
                None => default_message(),
            },
    {
        let mut ins = Self::default();
        ins.data = data;
        match message {
            Some(m) => {
                ins.message = m;
            },
            None => {},
        }
        ins
    }

    /// A failed response with the given message.
    pub fn failed(message: String, data: Option<Data>) -> (res: Self)
        ensures
            res.status == ResponseStatus::Failed,
            res.message == message,
            res.data == data,
    {
        let mut ins = Self::default();
        ins.status = ResponseStatus::Failed;
        ins.message = message;
        ins.data = data;
        ins
    }

    /// A response that succeeded with a caveat, stated in the message.
    pub fn warning(message: String, data: Option<Data>) -> (res: Self)
        ensures
            res.status == ResponseStatus::Warning,
            res.message == message,
            res.data == data,
    {
        let mut ins = Self::default();
        ins.status = ResponseStatus::Warning;
        ins.message = message;
        ins.data = data;
        ins
    }
}

} // verus!
