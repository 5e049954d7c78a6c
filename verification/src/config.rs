//! Client settings and the client directory (`~/.ququer` unless another one
//! was chosen).

use vstd::prelude::*;

use crate::text::{join_path, path_join};

verus! {

/// Settings read from `config.toml`.
#[derive(Debug, PartialEq, Eq)]
pub struct Config {
    pub server: String,
    pub output: String,
}

/// The server used when none is configured.
pub fn default_server() -> (s: String)
    ensures
        s@ == "https://ququer.ai"@,
{
    String::from_str("https://ququer.ai")
}

/// The output format used when none is configured.
pub fn default_output() -> (s: String)
    ensures
        s@ == "json"@,
{
    String::from_str("json")
}

impl Default for Config {
    fn default() -> (c: Self)
        ensures
            c.server@ == "https://ququer.ai"@,
            c.output@ == "json"@,
    {
        Config { server: default_server(), output: default_output() }
    }
}

/// How results are printed.
#[derive(Debug, Clone, Copy, PartialEq, Eq)]
pub enum OutputStyle {
    /// Indented JSON (the `text` setting).
    Pretty,
    /// JSON on one line (any other setting).
    Compact,
}

/// The print style that the `output` setting selects.
pub fn output_style(config: &Config) -> (style: OutputStyle)
    ensures
        style == (if config.output@ == "text"@ {
            OutputStyle::Pretty
        } else {
            OutputStyle::Compact
        }),
{
    let text = String::from_str("text");
    if config.output == text {
        OutputStyle::Pretty
    } else {
        OutputStyle::Compact
    }
}

/// The client directory chosen on the command line, settable once.
#[derive(Debug)]
pub struct ConfigDir {
    dir: Option<String>,
}

impl View for ConfigDir {
    type V = Option<Seq<char>>;

    /// The chosen directory, if one was set.
    closed spec fn view(&self) -> Option<Seq<char>> {
        match self.dir {
            Some(d) => Some(d@),
            None => None,
        }
    }
}

impl ConfigDir {
    /// No directory chosen yet.
    pub fn new() -> (c: ConfigDir)
        ensures
            c@ is None,
    {
        ConfigDir { dir: None }
    }

    /// The chosen directory, if any.
    pub fn get(&self) -> (d: Option<&String>)
        ensures
            match d {
                Some(s) => self@ == Some(s@),
                None => self@ is None,
            },
    {
        match &self.dir {
            Some(s) => Some(s),
            None => None,
        }
    }
}

/// Chooses the client directory. Only the first choice counts: once a
/// directory is set, later calls leave it unchanged.
pub fn set_config_dir(slot: &mut ConfigDir, path: String)
    ensures
        old(slot)@ is None ==> final(slot)@ == Some(path@),
        old(slot)@ is Some ==> final(slot)@ == old(slot)@,
{
    if slot.dir.is_none() {
        slot.dir = Some(path);
    }
}

/// Why the client directory cannot be found.
#[derive(Debug, PartialEq, Eq)]
pub enum ConfigError {
    /// No directory was chosen and the home directory is unknown.
    NoHomeDirectory,
}

impl ConfigError {
    /// The message shown to the user.
    pub fn message(&self) -> (m: String)
        ensures
            m@ == "cannot determine home directory"@,
    {
        String::from_str("cannot determine home directory")
    }
}

/// The client directory: the chosen one, else `.ququer` in the home
/// directory.
pub fn ququer_dir(chosen: &ConfigDir, home: Option<&str>) -> (r: Result<String, ConfigError>)
    ensures
        chosen@ matches Some(d) ==> (r matches Ok(p) && p@ == d),
        chosen@ is None ==> match home {
            Some(h) => (r matches Ok(p) && p@ == path_join(h@, ".ququer"@)),
            None => r == Err::<String, ConfigError>(ConfigError::NoHomeDirectory),
        },
{
    match chosen.get() {
        Some(d) => Ok(d.clone()),
        None => match home {
            Some(h) => Ok(join_path(h, ".ququer")),
            None => Err(ConfigError::NoHomeDirectory),
        },
    }
}

/// `config.toml` in the client directory.
pub fn config_path(dir: &str) -> (p: String)
    ensures
        p@ == path_join(dir@, "config.toml"@),
{
    join_path(dir, "config.toml")
}

} // verus!
