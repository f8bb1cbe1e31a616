//! User preferences: the configuration record, its defaults, and the
//! dot-separated key paths of `config get` / `config set`. Loading and
//! saving the record is plain file I/O and lives outside the verified
//! library.

use vstd::prelude::*;
use vstd::string::StrSliceExecFns;
use vstd::string::StringExecFns;

use crate::text;

verus! {

/// What `worktree config` can be asked to do.
#[derive(Debug, Clone)]
pub enum ConfigAction {
    /// Print the current configuration.
    Show,
    /// Print the configuration file path.
    Path,
    /// Write the default configuration to disk.
    Init,
    /// Set a configuration value (e.g. editor.command "code .").
    SetValue { key: String, value: String },
    /// Get a configuration value.
    Get { key: String },
}

/// The editor launch command, e.g. `code .` or `nvim .`.
#[derive(Debug, Clone)]
pub struct EditorConfig {
    pub command: Option<String>,
}

/// The terminal launch command; `None` uses the platform default.
#[derive(Debug, Clone)]
pub struct TerminalConfig {
    pub command: Option<String>,
}

/// What to open after a workspace is materialized.
#[derive(Debug, Clone)]
pub struct OpenConfig {
    pub editor: bool,
    pub explorer: bool,
    pub terminal: bool,
}

/// User scripts run around opening a workspace.
#[derive(Debug, Clone)]
pub struct HooksConfig {
    pub pre_open: Option<String>,
    pub post_open: Option<String>,
}

/// The whole configuration record.
#[derive(Debug, Clone)]
pub struct Config {
    pub editor: EditorConfig,
    pub terminal: TerminalConfig,
    pub open: OpenConfig,
    pub hooks: HooksConfig,
}

/// The mathematical value of a [`Config`], flattened.
pub struct ConfigV {
    pub editor_command: Option<Seq<char>>,
    pub terminal_command: Option<Seq<char>>,
    pub open_editor: bool,
    pub open_explorer: bool,
    pub open_terminal: bool,
    pub pre_open: Option<Seq<char>>,
    pub post_open: Option<Seq<char>>,
}

/// The mathematical value of an optional owned string.
pub open spec fn opt_str_view(o: Option<String>) -> Option<Seq<char>> {
    match o {
        Some(s) => Some(s@),
        None => None,
    }
}

impl View for Config {
    type V = ConfigV;

    open spec fn view(&self) -> ConfigV {
        ConfigV {
            editor_command: opt_str_view(self.editor.command),
            terminal_command: opt_str_view(self.terminal.command),
            open_editor: self.open.editor,
            open_explorer: self.open.explorer,
            open_terminal: self.open.terminal,
            pre_open: opt_str_view(self.hooks.pre_open),
            post_open: opt_str_view(self.hooks.post_open),
        }
    }
}

/// The configuration every fresh install starts from: nothing
/// configured, and only the terminal opened.
pub open spec fn default_config() -> ConfigV {
    ConfigV {
        editor_command: None,
        terminal_command: None,
        open_editor: false,
        open_explorer: false,
        open_terminal: true,
        pre_open: None,
        post_open: None,
    }
}

impl Default for EditorConfig {
    /// No editor configured.
    fn default() -> (r: EditorConfig)
        ensures
            r.command is None,
    {
        EditorConfig { command: None }
    }
}

impl Default for TerminalConfig {
    /// The platform-default terminal.
    fn default() -> (r: TerminalConfig)
        ensures
            r.command is None,
    {
        TerminalConfig { command: None }
    }
}

impl Default for OpenConfig {
    /// Only the terminal is opened by default.
    fn default() -> (r: OpenConfig)
        ensures
            !r.editor && !r.explorer && r.terminal,
    {
        OpenConfig { editor: false, explorer: false, terminal: true }
    }
}

impl Default for HooksConfig {
    /// No hooks configured.
    fn default() -> (r: HooksConfig)
        ensures
            r.pre_open is None && r.post_open is None,
    {
        HooksConfig { pre_open: None, post_open: None }
    }
}

impl Default for Config {
    /// The default record, exactly [`default_config`].
    fn default() -> (r: Config)
        ensures
            r@ == default_config(),
    {
        Config {
            editor: EditorConfig::default(),
            terminal: TerminalConfig::default(),
            open: OpenConfig::default(),
            hooks: HooksConfig::default(),
        }
    }
}

/// The mathematical value of a configuration error.
pub enum ConfigFaultV {
    UnknownKey { key: Seq<char> },
    InvalidBool { value: Seq<char> },
}

/// Why a `config get` or `config set` was rejected.
#[derive(Debug, Clone, PartialEq)]
pub enum ConfigError {
    /// The key names no configuration field.
    UnknownKey { key: String },
    /// The value of a boolean key is neither `true` nor `false`.
    InvalidBool { value: String },
}

impl View for ConfigError {
    type V = ConfigFaultV;

    open spec fn view(&self) -> ConfigFaultV {
        match self {
            ConfigError::UnknownKey { key } => ConfigFaultV::UnknownKey { key: key@ },
            ConfigError::InvalidBool { value } => ConfigFaultV::InvalidBool { value: value@ },
        }
    }
}

/// The message of a configuration error.
pub open spec fn config_error_message(e: ConfigFaultV) -> Seq<char> {
    match e {
        ConfigFaultV::UnknownKey { key } => "Unknown config key: "@ + key,
        ConfigFaultV::InvalidBool { value } => "Invalid boolean value: "@ + value,
    }
}

impl ConfigError {
    /// The error rendered as a single human-readable message.
    pub fn message(&self) -> (r: String)
        ensures
            r@ == config_error_message(self@),
    {
        match self {
            ConfigError::UnknownKey { key } => {
                let mut s = String::from_str("Unknown config key: ");
                s.append(key.as_str());
                s
            },
            ConfigError::InvalidBool { value } => {
                let mut s = String::from_str("Invalid boolean value: ");
                s.append(value.as_str());
                s
            },
        }
    }
}

/// The rendering of a boolean value.
pub open spec fn bool_str(b: bool) -> Seq<char> {
    if b {
        "true"@
    } else {
        "false"@
    }
}

/// An optional string, or the empty string in its absence.
pub open spec fn opt_or_empty(o: Option<Seq<char>>) -> Seq<char> {
    match o {
        Some(s) => s,
        None => Seq::empty(),
    }
}

/// What `config get` returns for each key path.
pub open spec fn get_value_spec(c: ConfigV, key: Seq<char>) -> Result<Seq<char>, ConfigFaultV> {
    if key == "editor.command"@ {
        Ok(opt_or_empty(c.editor_command))
    } else if key == "terminal.command"@ {
        Ok(opt_or_empty(c.terminal_command))
    } else if key == "open.editor"@ {
        Ok(bool_str(c.open_editor))
    } else if key == "open.explorer"@ {
        Ok(bool_str(c.open_explorer))
    } else if key == "open.terminal"@ {
        Ok(bool_str(c.open_terminal))
    } else {
        Err(ConfigFaultV::UnknownKey { key })
    }
}

/// An empty value clears an optional command; anything else sets it.
pub open spec fn set_opt_spec(value: Seq<char>) -> Option<Seq<char>> {
    if value.len() == 0 {
        None
    } else {
        Some(value)
    }
}

/// What `config set` makes of the record for each key path: exactly
/// `true` or `false` for the boolean keys, any string for the command
/// keys.
pub open spec fn set_value_spec(c: ConfigV, key: Seq<char>, value: Seq<char>) -> Result<
    ConfigV,
    ConfigFaultV,
> {
    if key == "editor.command"@ {
        Ok(ConfigV { editor_command: set_opt_spec(value), ..c })
    } else if key == "terminal.command"@ {
        Ok(ConfigV { terminal_command: set_opt_spec(value), ..c })
    } else if key == "open.editor"@ {
        match bool_spec(value) {
            Some(b) => Ok(ConfigV { open_editor: b, ..c }),
            None => Err(ConfigFaultV::InvalidBool { value }),
        }
    } else if key == "open.explorer"@ {
        match bool_spec(value) {
            Some(b) => Ok(ConfigV { open_explorer: b, ..c }),
            None => Err(ConfigFaultV::InvalidBool { value }),
        }
    } else if key == "open.terminal"@ {
        match bool_spec(value) {
            Some(b) => Ok(ConfigV { open_terminal: b, ..c }),
            None => Err(ConfigFaultV::InvalidBool { value }),
        }
    } else {
        Err(ConfigFaultV::UnknownKey { key })
    }
}

/// The boolean a string denotes: exactly `true` or `false`.
pub open spec fn bool_spec(s: Seq<char>) -> Option<bool> {
    if s == "true"@ {
        Some(true)
    } else if s == "false"@ {
        Some(false)
    } else {
        None
    }
}

fn parse_bool(value: &str) -> (r: Option<bool>)
    ensures
        r == bool_spec(value@),
{
    if text::str_eq_lit(value, "true") {
        Some(true)
    } else if text::str_eq_lit(value, "false") {
        Some(false)
    } else {
        None
    }
}

impl Config {
    /// Get a config value by dot-separated key path.
    pub fn get_value(&self, key: &str) -> (r: Result<String, ConfigError>)
        ensures
            match r {
                Ok(v) => get_value_spec(self@, key@) == Ok::<Seq<char>, ConfigFaultV>(v@),
                Err(e) => get_value_spec(self@, key@) == Err::<Seq<char>, ConfigFaultV>(e@),
            },
    {
        if text::str_eq_lit(key, "editor.command") {
            Ok(clone_or_empty(&self.editor.command))
        } else if text::str_eq_lit(key, "terminal.command") {
            Ok(clone_or_empty(&self.terminal.command))
        } else if text::str_eq_lit(key, "open.editor") {
            Ok(bool_to_string(self.open.editor))
        } else if text::str_eq_lit(key, "open.explorer") {
            Ok(bool_to_string(self.open.explorer))
        } else if text::str_eq_lit(key, "open.terminal") {
            Ok(bool_to_string(self.open.terminal))
        } else {
            Err(ConfigError::UnknownKey { key: key.to_owned() })
        }
    }

    /// Set a config value by dot-separated key path. A rejected key or
    /// value leaves the record unchanged.
    pub fn set_value(&mut self, key: &str, value: &str) -> (r: Result<(), ConfigError>)
        ensures
            match r {
                Ok(_) => set_value_spec(old(self)@, key@, value@) == Ok::<ConfigV, ConfigFaultV>(
                    final(self)@,
                ),
                Err(e) => set_value_spec(old(self)@, key@, value@) == Err::<ConfigV, ConfigFaultV>(
                    e@,
                ) && final(self)@ == old(self)@,
            },
    {
        if text::str_eq_lit(key, "editor.command") {
            self.editor.command = set_opt(value);
            Ok(())
        } else if text::str_eq_lit(key, "terminal.command") {
            self.terminal.command = set_opt(value);
            Ok(())
        } else if text::str_eq_lit(key, "open.editor") {
            match parse_bool(value) {
                Some(b) => {
                    self.open.editor = b;
                    Ok(())
                },
                None => Err(ConfigError::InvalidBool { value: value.to_owned() }),
            }
        } else if text::str_eq_lit(key, "open.explorer") {
            match parse_bool(value) {
                Some(b) => {
                    self.open.explorer = b;
                    Ok(())
                },
                None => Err(ConfigError::InvalidBool { value: value.to_owned() }),
            }
        } else if text::str_eq_lit(key, "open.terminal") {
            match parse_bool(value) {
                Some(b) => {
                    self.open.terminal = b;
                    Ok(())
                },
                None => Err(ConfigError::InvalidBool { value: value.to_owned() }),
            }
        } else {
            Err(ConfigError::UnknownKey { key: key.to_owned() })
        }
    }
}

fn clone_or_empty(o: &Option<String>) -> (r: String)
    ensures
        r@ == opt_or_empty(opt_str_view(*o)),
{
    match o {
        Some(s) => s.clone(),
        None => String::new(),
    }
}

/// Render a boolean as `bool::to_string` does.
pub fn bool_to_string(b: bool) -> (r: String)
    ensures
        r@ == bool_str(b),
{
    if b {
        String::from_str("true")
    } else {
        String::from_str("false")
    }
}

fn set_opt(value: &str) -> (r: Option<String>)
    ensures
        opt_str_view(r) == set_opt_spec(value@),
{
    if value.is_empty() {
        proof {
            assert(value@ =~= Seq::<char>::empty());
        }
        None
    } else {
        Some(value.to_owned())
    }
}

} // verus!
