//! The application's own configuration: a TOML text, read through the
//! `config` crate.

use vstd::prelude::*;
use vstd::string::StringExecFns;
use crate::error::Error;

verus! {

#[verifier::external_type_specification]
#[verifier::external_body]
pub struct ExConfig(config::Config);

#[verifier::external_type_specification]
#[verifier::external_body]
pub struct ExConfigError(config::ConfigError);

/// What a configuration holds, as far as this library asks: the integers and
/// the texts that can be had from it, each under its key.
pub struct ConfigModel {
    pub ints: Map<Seq<char>, i64>,
    pub strings: Map<Seq<char>, Seq<char>>,
}

/// What `config::Config::get_int` and `get_string` can get out of a
/// configuration.
pub uninterp spec fn config_contents(settings: config::Config) -> ConfigModel;

/// What the `config` crate makes of a TOML text: the contents of the
/// configuration built from it, or nothing where building fails.
pub uninterp spec fn toml_contents(text: Seq<char>) -> Option<ConfigModel>;

/// Whether a character opens a quoted text in TOML.
pub open spec fn is_quote(c: char) -> bool {
    c == '"' || c == '\''
}

/// Whether an equals sign stands before place `i` on the line of `i`.
pub open spec fn after_equals(text: Seq<char>, i: int) -> bool
    decreases i,
{
    if i <= 0 || i > text.len() {
        false
    } else if text[i - 1] == '\n' {
        false
    } else if text[i - 1] == '=' {
        true
    } else {
        after_equals(text, i - 1)
    }
}

/// Whether no key of a TOML text is written in quotes: every quote stands
/// behind an equals sign of its line. A key and a table heading begin a line
/// and come before the line's first equals sign, so in such a text every key
/// of the top level is a bare word without `.`, `[` or `]`.
pub open spec fn keys_unquoted(text: Seq<char>) -> bool {
    forall|i: int| 0 <= i < text.len() && is_quote(#[trigger] text[i]) ==> after_equals(text, i)
}

/// Whether a key asks for no place in an array: it holds no `[`.
pub open spec fn plain_key(key: Seq<char>) -> bool {
    forall|i: int| 0 <= i < key.len() ==> #[trigger] key[i] != '['
}

/// Builds a configuration from one TOML text: `config::Config::builder`,
/// `add_source` with `config::File::from_str` in the TOML format, and
/// `build`. The crate reads each key of the top level as a path; a text
/// whose keys are bare words gives the same configuration however its keys
/// are walked, and the contract gives the contents of that configuration a
/// name. A key in quotes can hold a path of its own, which may clash with
/// another key or ask for a place that an array does not have: such texts
/// are left out.
#[verifier::external_body]
fn build_from_toml(text: &str) -> (res: Result<config::Config, config::ConfigError>)
    requires
        keys_unquoted(text@),
    ensures
        match res {
            Ok(settings) => toml_contents(text@) == Some(config_contents(settings)),
            Err(_) => toml_contents(text@) is None,
        },
{
    config::Config::builder().add_source(
        config::File::from_str(text, config::FileFormat::Toml),
    ).build()
}

/// `config::Config::get_int`: the integer kept under `key`, or an error
/// where there is none or what is kept there is no integer. The crate reads
/// the key as a path; a key with a subscript may ask for a place that an
/// array does not have, and is left out.
#[verifier::external_body]
fn config_get_int(settings: &config::Config, key: &str) -> (res: Result<i64, config::ConfigError>)
    requires
        plain_key(key@),
    ensures
        match res {
            Ok(value) => config_contents(*settings).ints.contains_key(key@) && config_contents(
                *settings,
            ).ints[key@] == value,
            Err(_) => !config_contents(*settings).ints.contains_key(key@),
        },
{
    settings.get_int(key)
}

/// `config::Config::get_string`: the text kept under `key`, or an error
/// where there is none or what is kept there is no text. A key with a
/// subscript is left out, as for `config_get_int`.
#[verifier::external_body]
fn config_get_string(settings: &config::Config, key: &str) -> (res: Result<
    String,
    config::ConfigError,
>)
    requires
        plain_key(key@),
    ensures
        match res {
            Ok(value) => config_contents(*settings).strings.contains_key(key@)
                && config_contents(*settings).strings[key@] == value@,
            Err(_) => !config_contents(*settings).strings.contains_key(key@),
        },
{
    settings.get_string(key)
}

/// Says whether no key of a TOML text is written in quotes.
pub fn check_keys_unquoted(text: &str) -> (ok: bool)
    ensures
        ok == keys_unquoted(text@),
{
    let mut after: bool = false;
    for c in it: text.chars()
        invariant
            it.seq() == text@,
            after == after_equals(text@, it.index() as int),
            forall|i: int|
                0 <= i < it.index() && is_quote(#[trigger] text@[i]) ==> after_equals(text@, i),
    {
        if (c == '"' || c == '\'') && !after {
            assert(is_quote(text@[it.index() as int]));
            return false;
        }
        after = if c == '\n' {
            false
        } else if c == '=' {
            true
        } else {
            after
        };
    }
    true
}

/// Says whether a key holds no `[`.
pub fn check_plain_key(key: &str) -> (ok: bool)
    ensures
        ok == plain_key(key@),
{
    for c in it: key.chars()
        invariant
            it.seq() == key@,
            forall|i: int| 0 <= i < it.index() ==> #[trigger] key@[i] != '[',
    {
        if c == '[' {
            assert(key@[it.index() as int] == '[');
            return false;
        }
    }
    true
}

/// The message for a text with a key in quotes.
pub open spec fn quoted_key_message() -> Seq<char> {
    "keys in quotes are not supported"@
}

/// The message for a key with a subscript.
pub open spec fn subscript_message() -> Seq<char> {
    "keys with subscripts are not supported"@
}

/// The message of a `config::ConfigError`, by its `to_string`. Nothing is
/// claimed of the text.
#[verifier::external_body]
fn config_error_message(error: &config::ConfigError) -> (message: String) {
    error.to_string()
}

/// The error a command reports where the configuration fails it.
fn related_config_error(error: config::ConfigError) -> (res: Error)
    ensures
        res is FailedToGetRelatedConfig,
{
    Error::FailedToGetRelatedConfig(config_error_message(&error))
}

/// The application's configuration and where it was read from.
pub struct CrateConfig {
    inner: config::Config,
    file_path: String,
}

impl View for CrateConfig {
    type V = ConfigModel;

    closed spec fn view(&self) -> ConfigModel {
        config_contents(self.inner)
    }
}

impl CrateConfig {
    /// The configuration that the text of the file at `file_path` holds. A
    /// text with a key in quotes is refused before it is read; so is a text
    /// that the `config` crate cannot build a configuration from.
    pub fn new(file_path: String, content: &str) -> (res: Result<Self, Error>)
        ensures
            !keys_unquoted(content@) ==> (res matches Err(Error::FailedToGetRelatedConfig(m))
                && m@ == quoted_key_message()),
            keys_unquoted(content@) ==> match res {
                Ok(cfg) => toml_contents(content@) == Some(cfg@) && cfg.path() == file_path@,
                Err(e) => toml_contents(content@) is None && e is FailedToGetRelatedConfig,
            },
    {
        if !check_keys_unquoted(content) {
            return Err(
                Error::FailedToGetRelatedConfig(
                    String::from_str("keys in quotes are not supported"),
                ),
            );
        }
        match build_from_toml(content) {
            Ok(inner) => Ok(CrateConfig { inner, file_path }),
            Err(e) => Err(related_config_error(e)),
        }
    }

    /// Where the configuration was read from.
    pub closed spec fn path(&self) -> Seq<char> {
        self.file_path@
    }

    /// Where the configuration was read from.
    pub fn file_path(&self) -> (path: &String)
        ensures
            path@ == self.path(),
    {
        &self.file_path
    }

    /// The integer kept under `key`. A key with a subscript is refused.
    pub fn get_int(&self, key: &str) -> (res: Result<i64, Error>)
        ensures
            !plain_key(key@) ==> (res matches Err(Error::FailedToGetRelatedConfig(m)) && m@
                == subscript_message()),
            plain_key(key@) ==> match res {
                Ok(value) => self@.ints.contains_key(key@) && self@.ints[key@] == value,
                Err(e) => !self@.ints.contains_key(key@) && e is FailedToGetRelatedConfig,
            },
    {
        if !check_plain_key(key) {
            return Err(
                Error::FailedToGetRelatedConfig(
                    String::from_str("keys with subscripts are not supported"),
                ),
            );
        }
        match config_get_int(&self.inner, key) {
            Ok(value) => Ok(value),
            Err(e) => Err(related_config_error(e)),
        }
    }

    /// The text kept under `key`. A key with a subscript is refused.
    pub fn get_string(&self, key: &str) -> (res: Result<String, Error>)
        ensures
            !plain_key(key@) ==> (res matches Err(Error::FailedToGetRelatedConfig(m)) && m@
                == subscript_message()),
            plain_key(key@) ==> match res {
                Ok(value) => self@.strings.contains_key(key@) && self@.strings[key@] == value@,
                Err(e) => !self@.strings.contains_key(key@) && e is FailedToGetRelatedConfig,
            },
    {
        if !check_plain_key(key) {
            return Err(
                Error::FailedToGetRelatedConfig(
                    String::from_str("keys with subscripts are not supported"),
                ),
            );
        }
        match config_get_string(&self.inner, key) {
            Ok(value) => Ok(value),
            Err(e) => Err(related_config_error(e)),
        }
    }
}

/// The low eight bits of an integer: what a setting that has to fit a byte is
/// cut down to.
pub open spec fn low_byte(value: i64) -> u8 {
    (value & 0xff) as u8
}

/// The integer kept under `key`, cut down to a byte.
fn get_byte(cfg: &CrateConfig, key: &str) -> (res: Result<u8, Error>)
    requires
        plain_key(key@),
    ensures
        match res {
            Ok(value) => cfg@.ints.contains_key(key@) && value == low_byte(cfg@.ints[key@]),
            Err(e) => !cfg@.ints.contains_key(key@) && e is FailedToGetRelatedConfig,
        },
{
    match cfg.get_int(key) {
        Ok(value) => {
            let low: i64 = value & 0xff;
            assert(0 <= low <= 255) by (bit_vector)
                requires
                    low == value & 0xff,
            ;
            Ok(low as u8)
        },
        Err(e) => Err(e),
    }
}

/// The key under which the connections file is cached.
pub fn get_connections_file_cache_manager_key(cfg: &CrateConfig) -> (res: Result<String, Error>)
    ensures
        match res {
            Ok(value) => cfg@.strings.contains_key("connections.file_cache_manager_key"@)
                && cfg@.strings["connections.file_cache_manager_key"@] == value@,
            Err(e) => !cfg@.strings.contains_key("connections.file_cache_manager_key"@)
                && e is FailedToGetRelatedConfig,
        },
{
    proof {
        reveal_strlit("connections.file_cache_manager_key");
    }
    cfg.get_string("connections.file_cache_manager_key")
}

/// The name of the connections file.
pub fn get_connections_file_name(cfg: &CrateConfig) -> (res: Result<String, Error>)
    ensures
        match res {
            Ok(value) => cfg@.strings.contains_key("connections.filename"@)
                && cfg@.strings["connections.filename"@] == value@,
            Err(e) => !cfg@.strings.contains_key("connections.filename"@)
                && e is FailedToGetRelatedConfig,
        },
{
    proof {
        reveal_strlit("connections.filename");
    }
    cfg.get_string("connections.filename")
}

/// The seconds to wait for a connection, cut down to a byte.
pub fn get_redis_connection_timeout(cfg: &CrateConfig) -> (res: Result<u8, Error>)
    ensures
        match res {
            Ok(value) => cfg@.ints.contains_key("redis.connection_timeout"@) && value
                == low_byte(cfg@.ints["redis.connection_timeout"@]),
            Err(e) => !cfg@.ints.contains_key("redis.connection_timeout"@)
                && e is FailedToGetRelatedConfig,
        },
{
    proof {
        reveal_strlit("redis.connection_timeout");
    }
    get_byte(cfg, "redis.connection_timeout")
}

/// The number of databases to offer, cut down to a byte.
pub fn get_redis_max_db_nums(cfg: &CrateConfig) -> (res: Result<u8, Error>)
    ensures
        match res {
            Ok(value) => cfg@.ints.contains_key("redis.max_db_nums"@) && value == low_byte(
                cfg@.ints["redis.max_db_nums"@],
            ),
            Err(e) => !cfg@.ints.contains_key("redis.max_db_nums"@)
                && e is FailedToGetRelatedConfig,
        },
{
    proof {
        reveal_strlit("redis.max_db_nums");
    }
    get_byte(cfg, "redis.max_db_nums")
}

/// The name of the settings file.
pub fn get_settings_file_name(cfg: &CrateConfig) -> (res: Result<String, Error>)
    ensures
        match res {
            Ok(value) => cfg@.strings.contains_key("settings.filename"@)
                && cfg@.strings["settings.filename"@] == value@,
            Err(e) => !cfg@.strings.contains_key("settings.filename"@)
                && e is FailedToGetRelatedConfig,
        },
{
    proof {
        reveal_strlit("settings.filename");
    }
    cfg.get_string("settings.filename")
}

/// The key under which the file of odds and ends is cached.
pub fn get_miscs_file_cache_manager_key(cfg: &CrateConfig) -> (res: Result<String, Error>)
    ensures
        match res {
            Ok(value) => cfg@.strings.contains_key("miscs.file_cache_manager_key"@)
                && cfg@.strings["miscs.file_cache_manager_key"@] == value@,
            Err(e) => !cfg@.strings.contains_key("miscs.file_cache_manager_key"@)
                && e is FailedToGetRelatedConfig,
        },
{
    proof {
        reveal_strlit("miscs.file_cache_manager_key");
    }
    cfg.get_string("miscs.file_cache_manager_key")
}

/// The name of the file of odds and ends.
pub fn get_miscs_file_name(cfg: &CrateConfig) -> (res: Result<String, Error>)
    ensures
        match res {
            Ok(value) => cfg@.strings.contains_key("miscs.filename"@)
                && cfg@.strings["miscs.filename"@] == value@,
            Err(e) => !cfg@.strings.contains_key("miscs.filename"@)
                && e is FailedToGetRelatedConfig,
        },
{
    proof {
        reveal_strlit("miscs.filename");
    }
    cfg.get_string("miscs.filename")
}

} // verus!
