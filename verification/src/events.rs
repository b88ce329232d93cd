//! The events the backend raises, and the names they travel under.

use vstd::prelude::*;
use vstd::string::StringExecFns;

verus! {

/// A type whose values each stand for one named event.
pub trait IntoEventName: Sized {
    /// The name of the event.
    spec fn event_name(&self) -> Seq<char>;

    /// The name of the event.
    fn into_event_name(self) -> (name: &'static str)
        ensures
            name@ == self.event_name(),
    ;
}

/// The payload of an event that carries nothing.
#[derive(Clone, Copy, Debug, Default)]
pub struct EventsNonePayload;

/// The events of the application itself.
#[derive(Clone, Copy, Debug, PartialEq, Eq, Structural)]
pub enum Events {
    /// The main window was shown or hidden by the user.
    WindowVisibleChangedManually,
}

impl IntoEventName for Events {
    open spec fn event_name(&self) -> Seq<char> {
        "internal:window:visible-changed-manually"@
    }

    fn into_event_name(self) -> (name: &'static str) {
        "internal:window:visible-changed-manually"
    }
}

impl Events {
    /// The name of the event as an owned text.
    pub fn to_string(&self) -> (name: String)
        ensures
            name@ == self.event_name(),
    {
        String::from_str(self.into_event_name())
    }
}

} // verus!
