//! The settings of the shell.

use vstd::prelude::*;
use vstd::string::*;

verus! {

/// Where the history is kept unless the settings say otherwise.
pub open spec fn default_history_path(home: Seq<char>) -> Seq<char> {
    home + "/.ephosh_history"@
}

/// Where the settings are looked for.
pub open spec fn settings_path(home: Seq<char>) -> Seq<char> {
    home + "/.config/ephosh/ephosh.json"@
}

/// The settings of the shell.
#[derive(Clone, Debug, PartialEq, Eq)]
pub struct Config {
    /// How many panes there may be at once.
    pub max_outputs: usize,
    /// The file in which the history is kept.
    pub history_path: String,
    /// How many lines of history are kept.
    pub history_size: usize,
}

impl Config {
    /// Whether the shell can run with these settings: there may be at least
    /// one pane, and at least one line of history is kept.
    pub open spec fn usable(&self) -> bool {
        self.max_outputs >= 1 && self.history_size >= 1
    }

    /// Whether the shell can run with these settings.
    pub fn is_usable(&self) -> (usable: bool)
        ensures
            usable == self.usable(),
    {
        self.max_outputs >= 1 && self.history_size >= 1
    }

    /// The path of the settings file of the user whose home directory is `home`.
    pub fn path(home: &str) -> (path: String)
        ensures
            path@ == settings_path(home@),
    {
        String::from_str(home).concat("/.config/ephosh/ephosh.json")
    }

    /// The settings that hold where the user has chosen none: four panes, a
    /// thousand lines of history, kept in the home directory.
    pub fn fallback(home: &str) -> (config: Config)
        ensures
            config.max_outputs == 4,
            config.history_size == 1000,
            config.history_path@ == default_history_path(home@),
            config.usable(),
    {
        Config {
            max_outputs: 4,
            history_path: String::from_str(home).concat("/.ephosh_history"),
            history_size: 1000,
        }
    }

    /// The settings to run with, given what loading the settings file gave:
    /// the settings read, or why they could not be read. Settings that name
    /// no history file get the one in the home directory. Where nothing
    /// could be read, the fallback settings are handed back with the reason.
    pub fn new(loaded: Result<Config, String>, home: &str) -> (result: Result<
        Config,
        (Config, String),
    >)
        ensures
            match loaded {
                Ok(read) => result matches Ok(config) && config.max_outputs == read.max_outputs
                    && config.history_size == read.history_size && config.history_path@ == (
                if read.history_path@.len() == 0 {
                    default_history_path(home@)
                } else {
                    read.history_path@
                }),
                Err(reason) => result matches Err((config, why)) && why@ == reason@
                    && config.max_outputs == 4 && config.history_size == 1000
                    && config.history_path@ == default_history_path(home@),
            },
    {
        match loaded {
            Ok(read) => {
                let mut config = read;
                if config.history_path.as_str().is_empty() {
                    config.history_path = String::from_str(home).concat("/.ephosh_history");
                }
                Ok(config)
            },
            Err(reason) => Err((Config::fallback(home), reason)),
        }
    }

    /// The settings to run with and the message to show, given what `new`
    /// gave: no message where the settings were read, and the reason,
    /// marked as coming from the settings, where they were not.
    pub fn settle(result: Result<Config, (Config, String)>) -> (settled: (Config, String))
        ensures
            match result {
                Ok(config) => settled.0 == config && settled.1@ == Seq::<char>::empty(),
                Err((config, reason)) => settled.0 == config && settled.1@ == "Config: "@
                    + reason@,
            },
    {
        match result {
            Ok(config) => (config, String::new()),
            Err((config, reason)) => (config, String::from_str("Config: ").concat(reason.as_str())),
        }
    }
}

} // verus!
