//! Plain values that the messaging layer exchanges with its front ends.

use vstd::prelude::*;
use vstd::std_specs::convert::IntoSpec;

verus! {

/// Where the messaging core keeps its message history.
pub struct CoreConfig {
    database_path: String,
}

impl View for CoreConfig {
    type V = Seq<char>;

    /// The configured database location, for example
    /// `sqlite:///path/to/database.db`.
    closed spec fn view(&self) -> Seq<char> {
        self.database_path@
    }
}

impl CoreConfig {
    /// Creates a configuration from anything that converts into the
    /// database location.
    pub fn new<T: Into<String>>(database_path: T) -> (config: CoreConfig)
        ensures
            T::obeys_into_spec() ==> config@ == T::into_spec(database_path)@,
    {
        CoreConfig::with_path(database_path.into())
    }

    /// Creates a configuration for the given database location.
    pub fn with_path(database_path: String) -> (config: CoreConfig)
        ensures
            config@ == database_path@,
    {
        CoreConfig { database_path }
    }

    /// The configured database location.
    pub fn database_path(&self) -> (path: &str)
        ensures
            path@ == self@,
    {
        self.database_path.as_str()
    }
}

/// What a message from the core to a front end is about.
#[allow(non_camel_case_types)]
#[derive(Debug, Clone, Copy, PartialEq, Eq, Structural)]
pub enum MessageEvent {
    /// A new line of text for the message list.
    newmassage,
}

/// A message from the core to a front end.
pub struct ChatMeassage {
    /// What the message is about.
    pub event: MessageEvent,
    /// The text to show.
    pub data: String,
}

impl ChatMeassage {
    /// Wraps a line of text as a message for the front end.
    pub fn new_message(data: String) -> (message: ChatMeassage)
        ensures
            message.event == MessageEvent::newmassage,
            message.data == data,
    {
        ChatMeassage { event: MessageEvent::newmassage, data }
    }
}

/// The sum of two counters.
pub fn add(left: u64, right: u64) -> (sum: u64)
    requires
        left + right <= u64::MAX,
    ensures
        sum == left + right,
{
    left + right
}

} // verus!
