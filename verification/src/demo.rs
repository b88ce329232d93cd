//! Two greetings and the record of a fetched page, kept for trying out the
//! command layer.

use vstd::prelude::*;
use vstd::string::StringExecFns;

verus! {

/// A page that was fetched: its text, where it came from and how long the
/// fetch took.
#[derive(Debug)]
pub struct WebContent {
    html: String,
    uri: String,
    time_elapsed: String,
}

/// A fetched page as a mathematical value.
pub struct WebContentModel {
    pub html: Seq<char>,
    pub uri: Seq<char>,
    pub time_elapsed: Seq<char>,
}

impl View for WebContent {
    type V = WebContentModel;

    closed spec fn view(&self) -> WebContentModel {
        WebContentModel { html: self.html@, uri: self.uri@, time_elapsed: self.time_elapsed@ }
    }
}

impl WebContent {
    /// The record of a fetch.
    pub fn new(uri: String, html: String, time_elapsed: String) -> (content: Self)
        ensures
            content@ == (WebContentModel {
                html: html@,
                uri: uri@,
                time_elapsed: time_elapsed@,
            }),
    {
        WebContent { html, uri, time_elapsed }
    }

    /// The text of the page.
    pub fn html(&self) -> (html: &String)
        ensures
            html@ == self@.html,
    {
        &self.html
    }

    /// Where the page came from.
    pub fn uri(&self) -> (uri: &String)
        ensures
            uri@ == self@.uri,
    {
        &self.uri
    }

    /// How long the fetch took.
    pub fn time_elapsed(&self) -> (time_elapsed: &String)
        ensures
            time_elapsed@ == self@.time_elapsed,
    {
        &self.time_elapsed
    }
}

/// A greeting for `name`.
pub fn greet(name: &str) -> (greeting: String)
    ensures
        greeting@ == "Hello, "@ + name@ + "! You've been greeted from Rust!"@,
{
    String::from_str("Hello, ").concat(name).concat("! You've been greeted from Rust!")
}

/// The name, as it came.
pub fn async_greet(name: &str) -> (greeting: String)
    ensures
        greeting@ == name@,
{
    String::from_str(name)
}

} // verus!
