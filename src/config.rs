//! Configuration and the decisions of the command line around it.

use std::collections::HashMap;

use vstd::prelude::*;

verus! {

/// Configuration of a generation run.
#[derive(Clone, Debug)]
pub struct Config {
    /// What given database type should map to.
    pub custom_type_map: HashMap<String, String>,
}

impl Default for Config {
    fn default() -> (r: Config)
        ensures
            r.custom_type_map@ == Map::<String, String>::empty(),
    {
        Config { custom_type_map: HashMap::new() }
    }
}

/// Configuration file read when none is named.
pub fn default_config_path() -> (r: &'static str)
    ensures
        r@ == "cornucopia.toml"@,
{
    "cornucopia.toml"
}

/// Errors reported by the command line.
#[derive(Clone, Debug, PartialEq, Eq)]
pub enum CliError {
    /// The configuration file could not be read.
    MissingConfig { path: String, err: String },
    /// The configuration file could not be parsed.
    ConfigContents { path: String, err: String },
    /// Generation itself failed.
    Internal(String),
}

impl CliError {
    pub open spec fn message_spec(&self) -> Seq<char> {
        match self {
            CliError::MissingConfig { path, err } =>
                "Could not load config `"@ + path@ + "`: ("@ + err@ + ")"@,
            CliError::ConfigContents { path, err } =>
                "Could not parse config `"@ + path@ + "`: ("@ + err@ + ")"@,
            CliError::Internal(msg) => msg@,
        }
    }

    /// Text shown to the operator.
    pub fn message(&self) -> (r: String)
        ensures
            r@ == self.message_spec(),
    {
        match self {
            CliError::MissingConfig { path, err } => {
                let mut s = String::from_str("Could not load config `");
                s.append(path.as_str());
                s.append("`: (");
                s.append(err.as_str());
                s.append(")");
                s
            },
            CliError::ConfigContents { path, err } => {
                let mut s = String::from_str("Could not parse config `");
                s.append(path.as_str());
                s.append("`: (");
                s.append(err.as_str());
                s.append(")");
                s
            },
            CliError::Internal(msg) => msg.clone(),
        }
    }
}

/// What to do when the configuration file at `path` cannot be read: fall
/// back to the default configuration only when `path` is the default one.
pub fn on_unreadable_config(path: String, err: String) -> (r: Result<Config, CliError>)
    ensures
        path@ == "cornucopia.toml"@ ==> (r matches Ok(c) && c.custom_type_map@ == Map::<String, String>::empty()),
        path@ != "cornucopia.toml"@ ==> r == Err::<Config, CliError>(CliError::MissingConfig { path, err }),
{
    let d = String::from_str(default_config_path());
    if path == d {
        Ok(Config::default())
    } else {
        Err(CliError::MissingConfig { path, err })
    }
}

/// Execution modes and options that the command line asks for.
#[derive(Clone, Copy, Debug, PartialEq, Eq, Structural)]
pub struct ModeFlags {
    pub gen_async: bool,
    pub gen_sync: bool,
    pub derive_ser: bool,
}

/// Non-blocking code unless only blocking code is asked for.
pub fn mode_flags(sync: bool, is_async: bool, serialize: bool) -> (r: ModeFlags)
    ensures
        r.gen_async == (is_async || !sync),
        r.gen_sync == sync,
        r.derive_ser == serialize,
{
    ModeFlags { gen_async: is_async || !sync, gen_sync: sync, derive_ser: serialize }
}

} // verus!
