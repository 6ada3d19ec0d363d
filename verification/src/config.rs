//! The settings that are kept between runs, and their TOML text.
//!
//! The text is read and written by the `toml` crate. This module states
//! what each call into it is trusted to do, over the string entries of a
//! table, and proves the rest from that. Reading and writing the file is
//! left to the caller.

use vstd::prelude::*;
use vstd::string::{StringExecFns, StringSliceAdditionalSpecFns};
use vstd::utf8::{decode_utf8, encode_utf8, encode_utf8_decode_utf8, is_char_boundary};

verus! {

/// The name of the file that holds the settings.
pub const CONFIG_FILE: &'static str = ".spacetraders.toml";

/// The key of the agent's credential.
pub const TOKEN_KEY: &'static str = "agent_token";

/// The key of the agent's symbol.
pub const SYMBOL_KEY: &'static str = "agent_symbol";

#[verifier::external_type_specification]
#[verifier::external_body]
#[verifier::reject_recursive_types(K)]
#[verifier::reject_recursive_types(V)]
pub struct ExTomlMap<K, V>(toml::map::Map<K, V>);

#[verifier::external_type_specification]
#[verifier::external_body]
pub struct ExTomlValue(toml::Value);

#[verifier::external_type_specification]
#[verifier::external_body]
pub struct ExTomlReadError(toml::de::Error);

#[verifier::external_type_specification]
#[verifier::external_body]
pub struct ExTomlWriteError(toml::ser::Error);

/// The entries of a table: each key with the text of its value, or with
/// `None` where the value is no string.
pub uninterp spec fn table_view(table: toml::Table) -> Map<Seq<char>, Option<Seq<char>>>;

/// The text of a value that is a string; `None` for any other value.
pub uninterp spec fn value_text(value: toml::Value) -> Option<Seq<char>>;

/// The entries of the table that `toml` reads from a text, or `None` where
/// it rejects the text.
pub uninterp spec fn parsed_toml(text: Seq<char>) -> Option<Map<Seq<char>, Option<Seq<char>>>>;

/// The text that `toml` writes for a table whose values are all strings, or
/// `None` where it refuses to.
pub uninterp spec fn rendered_toml(entries: Map<Seq<char>, Option<Seq<char>>>) -> Option<
    Seq<char>,
>;

/// The entries of an empty table.
pub open spec fn no_entries() -> Map<Seq<char>, Option<Seq<char>>> {
    Map::empty()
}

/// Calls `toml::from_str` for a `toml::Table`.
///
/// Trusted: the call succeeds exactly on the texts that `parsed_toml` knows,
/// and the table it returns has those entries.
#[verifier::external_body]
fn parse_table(text: &str) -> (r: Result<toml::Table, toml::de::Error>)
    ensures
        match r {
            Ok(table) => parsed_toml(text@) == Some(table_view(table)),
            Err(_) => parsed_toml(text@) is None,
        },
{
    toml::from_str::<toml::Table>(text)
}

/// Calls `toml::map::Map::get`.
///
/// Trusted: the call returns the value of the entry with that key, and
/// `None` where the table has no such entry.
#[verifier::external_body]
fn table_get<'a>(table: &'a toml::Table, key: &str) -> (r: Option<&'a toml::Value>)
    ensures
        match r {
            Some(value) => table_view(*table).dom().contains(key@) && table_view(*table)[key@]
                == value_text(*value),
            None => !table_view(*table).dom().contains(key@),
        },
{
    table.get(key)
}

/// Calls `toml::Value::as_str`.
///
/// Trusted: the call returns the text of a string and `None` for any other
/// value.
#[verifier::external_body]
fn value_as_str<'a>(value: &'a toml::Value) -> (r: Option<&'a str>)
    ensures
        match r {
            Some(text) => value_text(*value) == Some(text@),
            None => value_text(*value) is None,
        },
{
    value.as_str()
}

/// Calls `toml::map::Map::new`.
///
/// Trusted: the new table has no entries.
#[verifier::external_body]
fn new_table() -> (table: toml::Table)
    ensures
        table_view(table) == no_entries(),
{
    toml::Table::new()
}

/// Calls `toml::map::Map::insert` with a string value.
///
/// Trusted: afterwards the table holds the entry, in place of an earlier
/// one with the same key, and its other entries are unchanged.
#[verifier::external_body]
fn insert_text(table: &mut toml::Table, key: String, value: String)
    ensures
        table_view(*final(table)) == table_view(*old(table)).insert(key@, Some(value@)),
{
    table.insert(key, toml::Value::String(value));
}

/// Calls `toml::to_string_pretty` on a table.
///
/// Trusted: for a table whose values are all strings, the result depends on
/// the entries alone.
#[verifier::external_body]
fn render_table(table: &toml::Table) -> (r: Result<String, toml::ser::Error>)
    requires
        forall|key: Seq<char>| #[trigger]
            table_view(*table).dom().contains(key) ==> table_view(*table)[key] is Some,
    ensures
        match r {
            Ok(text) => rendered_toml(table_view(*table)) == Some(text@),
            Err(_) => rendered_toml(table_view(*table)) is None,
        },
{
    toml::to_string_pretty(table)
}

/// The settings: the credential of the agent and its symbol, once the agent
/// is registered.
#[derive(Debug, Clone, PartialEq, Eq)]
pub struct Config {
    pub agent_token: Option<String>,
    pub agent_symbol: Option<String>,
}

pub struct ConfigView {
    pub agent_token: Option<Seq<char>>,
    pub agent_symbol: Option<Seq<char>>,
}

impl View for Config {
    type V = ConfigView;

    open spec fn view(&self) -> ConfigView {
        ConfigView {
            agent_token: self.agent_token.deep_view(),
            agent_symbol: self.agent_symbol.deep_view(),
        }
    }
}

/// Why settings could not be read or written.
#[derive(Debug, Clone, PartialEq, Eq)]
pub enum ConfigError {
    /// The text is no TOML. `message` is the parser's complaint; its wording
    /// is not part of this crate's contracts.
    Syntax { message: String },
    /// The entry `key` holds something other than a string.
    NotText { key: String },
    /// The settings could not be written as TOML. `message` says why; its
    /// wording is not part of this crate's contracts.
    Unwritable { message: String },
}

pub enum ConfigErrorView {
    Syntax,
    NotText { key: Seq<char> },
    Unwritable,
}

impl View for ConfigError {
    type V = ConfigErrorView;

    open spec fn view(&self) -> ConfigErrorView {
        match self {
            ConfigError::Syntax { .. } => ConfigErrorView::Syntax,
            ConfigError::NotText { key } => ConfigErrorView::NotText { key: key@ },
            ConfigError::Unwritable { .. } => ConfigErrorView::Unwritable,
        }
    }
}

/// What a table holds under one key.
#[derive(Debug, Clone, PartialEq, Eq)]
pub enum Entry {
    Missing,
    Text(String),
    /// A value that is no string.
    Other,
}

pub enum EntryView {
    Missing,
    Text(Seq<char>),
    Other,
}

impl View for Entry {
    type V = EntryView;

    open spec fn view(&self) -> EntryView {
        match self {
            Entry::Missing => EntryView::Missing,
            Entry::Text(text) => EntryView::Text(text@),
            Entry::Other => EntryView::Other,
        }
    }
}

/// What `entries` hold under `key`.
pub open spec fn entry_of(entries: Map<Seq<char>, Option<Seq<char>>>, key: Seq<char>) -> EntryView {
    if !entries.dom().contains(key) {
        EntryView::Missing
    } else {
        match entries[key] {
            Some(text) => EntryView::Text(text),
            None => EntryView::Other,
        }
    }
}

/// The settings that the two entries stand for. An entry that is no string
/// is refused, the symbol's before the credential's.
pub open spec fn config_of(token: EntryView, symbol: EntryView) -> Result<
    ConfigView,
    ConfigErrorView,
> {
    if symbol is Other {
        Err(ConfigErrorView::NotText { key: SYMBOL_KEY@ })
    } else if token is Other {
        Err(ConfigErrorView::NotText { key: TOKEN_KEY@ })
    } else {
        Ok(
            ConfigView {
                agent_token: match token {
                    EntryView::Text(text) => Some(text),
                    _ => None,
                },
                agent_symbol: match symbol {
                    EntryView::Text(text) => Some(text),
                    _ => None,
                },
            },
        )
    }
}

/// The settings that a text stands for, given the entries that were read
/// from it.
pub open spec fn config_of_text(parsed: Option<Map<Seq<char>, Option<Seq<char>>>>) -> Result<
    ConfigView,
    ConfigErrorView,
> {
    match parsed {
        None => Err(ConfigErrorView::Syntax),
        Some(entries) => config_of(entry_of(entries, TOKEN_KEY@), entry_of(entries, SYMBOL_KEY@)),
    }
}

/// The entries that settings are written as: one for each item that is
/// present.
pub open spec fn entries_of(config: ConfigView) -> Map<Seq<char>, Option<Seq<char>>> {
    let with_token = match config.agent_token {
        Some(token) => no_entries().insert(TOKEN_KEY@, Some(token)),
        None => no_entries(),
    };
    match config.agent_symbol {
        Some(symbol) => with_token.insert(SYMBOL_KEY@, Some(symbol)),
        None => with_token,
    }
}

/// Tells whether `r` is the result that `want` describes.
pub open spec fn is_config(r: Result<Config, ConfigError>, want: Result<
    ConfigView,
    ConfigErrorView,
>) -> bool {
    match r {
        Ok(config) => want == Ok::<ConfigView, ConfigErrorView>(config@),
        Err(e) => want == Err::<ConfigView, ConfigErrorView>(e@),
    }
}

/// What [`Config::load`] found.
#[derive(Debug, Clone, PartialEq, Eq)]
pub struct Loaded {
    pub config: Config,
    /// Whether the settings are new, and so still have to be saved.
    pub created: bool,
}

fn lookup(table: &toml::Table, key: &str) -> (entry: Entry)
    ensures
        entry@ == entry_of(table_view(*table), key@),
{
    match table_get(table, key) {
        None => Entry::Missing,
        Some(value) => match value_as_str(value) {
            Some(text) => Entry::Text(String::from_str(text)),
            None => Entry::Other,
        },
    }
}

impl Config {
    /// The settings of a first run: nothing is known yet.
    pub fn empty() -> (config: Config)
        ensures
            config@ == (ConfigView { agent_token: None, agent_symbol: None }),
    {
        Config { agent_token: None, agent_symbol: None }
    }

    /// Makes settings of what a table holds under the two keys.
    pub fn from_entries(token: Entry, symbol: Entry) -> (r: Result<Config, ConfigError>)
        ensures
            is_config(r, config_of(token@, symbol@)),
    {
        let agent_symbol = match symbol {
            Entry::Missing => None,
            Entry::Text(text) => Some(text),
            Entry::Other => {
                return Err(ConfigError::NotText { key: String::from_str(SYMBOL_KEY) });
            },
        };
        let agent_token = match token {
            Entry::Missing => None,
            Entry::Text(text) => Some(text),
            Entry::Other => {
                return Err(ConfigError::NotText { key: String::from_str(TOKEN_KEY) });
            },
        };
        Ok(Config { agent_token, agent_symbol })
    }

    /// Reads settings from their TOML text. Entries under other keys are
    /// ignored.
    pub fn parse(text: &str) -> (r: Result<Config, ConfigError>)
        ensures
            is_config(r, config_of_text(parsed_toml(text@))),
    {
        match parse_table(text) {
            Err(e) => Err(ConfigError::Syntax { message: e.to_string() }),
            Ok(table) => {
                let token = lookup(&table, TOKEN_KEY);
                let symbol = lookup(&table, SYMBOL_KEY);
                Config::from_entries(token, symbol)
            },
        }
    }

    /// Loads the settings from the contents of the settings file, or makes
    /// new ones where there is no file yet.
    pub fn load(contents: Option<&str>) -> (r: Result<Loaded, ConfigError>)
        ensures
            match contents {
                None => r matches Ok(loaded) && loaded.created && loaded.config@ == (ConfigView {
                    agent_token: None,
                    agent_symbol: None,
                }),
                Some(text) => match r {
                    Ok(loaded) => !loaded.created && config_of_text(parsed_toml(text@)) == Ok::<
                        ConfigView,
                        ConfigErrorView,
                    >(loaded.config@),
                    Err(e) => config_of_text(parsed_toml(text@)) == Err::<
                        ConfigView,
                        ConfigErrorView,
                    >(e@),
                },
            },
    {
        match contents {
            None => Ok(Loaded { config: Config::empty(), created: true }),
            Some(text) => match Config::parse(text) {
                Ok(config) => Ok(Loaded { config, created: false }),
                Err(e) => Err(e),
            },
        }
    }

    /// Writes the settings as TOML text, for the caller to store in the
    /// settings file. An item that is absent gets no entry.
    pub fn save(&self) -> (r: Result<String, ConfigError>)
        ensures
            match r {
                Ok(text) => rendered_toml(entries_of(self@)) == Some(text@),
                Err(e) => rendered_toml(entries_of(self@)) is None && e@
                    == ConfigErrorView::Unwritable,
            },
    {
        let mut table = new_table();
        if let Some(token) = &self.agent_token {
            insert_text(&mut table, String::from_str(TOKEN_KEY), token.clone());
        }
        if let Some(symbol) = &self.agent_symbol {
            insert_text(&mut table, String::from_str(SYMBOL_KEY), symbol.clone());
        }
        match render_table(&table) {
            Ok(text) => Ok(text),
            Err(e) => Err(ConfigError::Unwritable { message: e.to_string() }),
        }
    }

    /// Tells whether a credential is present and not empty.
    pub fn has_token(&self) -> (r: bool)
        ensures
            r == (self@.agent_token matches Some(token) && token.len() > 0),
    {
        match &self.agent_token {
            Some(token) => !token.as_str().is_empty(),
            None => false,
        }
    }
}

/// The line that shows a credential to the operator without giving it
/// away: its first and last four bytes where it is longer than eight.
///
/// `None` where the credential is longer than eight bytes and a character
/// straddles the fourth byte from either end, so that it cannot be cut
/// there.
pub open spec fn preview_of(token: Seq<char>) -> Option<Seq<char>> {
    let bytes = encode_utf8(token);
    if bytes.len() <= 8 {
        Some("Token: <present>"@)
    } else if is_char_boundary(bytes, 4) && is_char_boundary(bytes, bytes.len() - 4) {
        Some(
            "Token: "@ + decode_utf8(bytes.subrange(0, 4)) + "..."@ + decode_utf8(
                bytes.subrange(bytes.len() - 4, bytes.len() as int),
            ),
        )
    } else {
        None
    }
}

/// Makes the line that shows a credential to the operator.
pub fn token_preview(token: &str) -> (r: Option<String>)
    ensures
        r.deep_view() == preview_of(token@),
{
    let n = token.as_bytes().len();
    if n <= 8 {
        Some(String::from_str("Token: <present>"))
    } else if token.is_char_boundary(4) && token.is_char_boundary(n - 4) {
        let (head, _) = token.split_at(4);
        let (_, tail) = token.split_at(n - 4);
        let line = String::from_str("Token: ").concat(head).concat("...").concat(tail);
        proof {
            encode_utf8_decode_utf8(head@);
            encode_utf8_decode_utf8(tail@);
        }
        Some(line)
    } else {
        None
    }
}

} // verus!
