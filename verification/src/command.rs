//! The records that the connection commands exchange with the user
//! interface and keep in the connections file.

use vstd::prelude::*;
use crate::client::Guid;
use crate::text::opt_text;

verus! {

/// Seconds to live, as the server reports and takes them.
pub type TTL = i64;

/// A saved connection profile.
#[derive(Default, Debug, Clone)]
pub struct ConnectionInfo {
    pub connection_name: String,
    pub host: String,
    pub port: u16,
    pub username: String,
    pub password: String,
    pub separator: String,
    pub readonly: bool,
    /// Set when the profile is created.
    pub created_at: String,
    pub updated_at: Option<String>,
    pub connected_at: Option<String>,
    /// Set when the profile is created.
    pub guid: Guid,
}

/// A connection profile as a mathematical value.
pub struct ConnectionModel {
    pub connection_name: Seq<char>,
    pub host: Seq<char>,
    pub port: u16,
    pub username: Seq<char>,
    pub password: Seq<char>,
    pub separator: Seq<char>,
    pub readonly: bool,
    pub created_at: Seq<char>,
    pub updated_at: Option<Seq<char>>,
    pub connected_at: Option<Seq<char>>,
    pub guid: Seq<char>,
}

impl View for ConnectionInfo {
    type V = ConnectionModel;

    open spec fn view(&self) -> ConnectionModel {
        ConnectionModel {
            connection_name: self.connection_name@,
            host: self.host@,
            port: self.port,
            username: self.username@,
            password: self.password@,
            separator: self.separator@,
            readonly: self.readonly,
            created_at: self.created_at@,
            updated_at: opt_text(self.updated_at),
            connected_at: opt_text(self.connected_at),
            guid: self.guid@,
        }
    }
}

/// What the user interface sends to create or edit a profile. With a `guid`
/// the profile of that identifier is edited; without one a profile is
/// created.
#[derive(Default, Debug, Clone)]
pub struct SaveConnectionPayload {
    pub connection_name: Option<String>,
    pub host: String,
    pub port: u16,
    pub username: Option<String>,
    pub password: Option<String>,
    pub separator: Option<String>,
    pub readonly: Option<bool>,
    pub guid: Option<Guid>,
}

/// A save request as a mathematical value.
pub struct SavePayloadModel {
    pub connection_name: Option<Seq<char>>,
    pub host: Seq<char>,
    pub port: u16,
    pub username: Option<Seq<char>>,
    pub password: Option<Seq<char>>,
    pub separator: Option<Seq<char>>,
    pub readonly: Option<bool>,
    pub guid: Option<Seq<char>>,
}

impl View for SaveConnectionPayload {
    type V = SavePayloadModel;

    open spec fn view(&self) -> SavePayloadModel {
        SavePayloadModel {
            connection_name: opt_text(self.connection_name),
            host: self.host@,
            port: self.port,
            username: opt_text(self.username),
            password: opt_text(self.password),
            separator: opt_text(self.separator),
            readonly: self.readonly,
            guid: opt_text(self.guid),
        }
    }
}

/// What is needed to open a connection.
#[derive(Default, Debug)]
pub struct RedisClientConnectionPayload {
    pub host: String,
    pub port: u16,
    pub username: Option<String>,
    pub password: Option<String>,
    pub guid: Guid,
}

/// The text, unless it is empty.
pub open spec fn filled(text: Option<String>) -> Option<Seq<char>> {
    match text {
        Some(t) => if t@.len() == 0 {
            None
        } else {
            Some(t@)
        },
        None => None,
    }
}

/// How to open a connection: where to, as whom, and how long to wait.
#[derive(Debug)]
pub struct ConnectionSettings {
    pub host: String,
    pub port: u16,
    /// The user to log in as, if any.
    pub username: Option<String>,
    /// The password to log in with, if any.
    pub password: Option<String>,
    /// How many seconds to wait for the connection to stand.
    pub connection_timeout: u64,
    /// How many seconds to wait for the commands that set the connection up.
    pub internal_command_timeout: u64,
}

impl RedisClientConnectionPayload {
    /// The settings to open this connection with. An empty user name and an
    /// empty password count as none. Both waits are `timeout` seconds.
    pub fn into_settings(self, timeout: u8) -> (settings: ConnectionSettings)
        ensures
            settings.host == self.host,
            settings.port == self.port,
            opt_text(settings.username) == filled(self.username),
            opt_text(settings.password) == filled(self.password),
            settings.connection_timeout == timeout,
            settings.internal_command_timeout == timeout,
    {
        let RedisClientConnectionPayload { host, port, username, password, guid: _ } = self;
        let username = match username {
            Some(name) => if name.as_str().is_empty() {
                None
            } else {
                Some(name)
            },
            None => None,
        };
        let password = match password {
            Some(word) => if word.as_str().is_empty() {
                None
            } else {
                Some(word)
            },
            None => None,
        };
        ConnectionSettings {
            host,
            port,
            username,
            password,
            connection_timeout: timeout as u64,
            internal_command_timeout: timeout as u64,
        }
    }
}

/// The profiles of a connections file as mathematical values.
pub open spec fn profiles(infos: Seq<ConnectionInfo>) -> Seq<ConnectionModel> {
    infos.map_values(|info: ConnectionInfo| info@)
}

} // verus!
