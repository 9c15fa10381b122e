//! The configuration of the application, and where it is kept.
//!
//! Reading and writing the configuration file is left to the caller.

use vstd::prelude::*;
use vstd::string::*;
use crate::paths::{app_dir, app_dir_spec, join_path, join_path_spec};

verus! {

/// The number of history entries that are kept by default.
pub const DEFAULT_MAX_ENTRIES: usize = 1000;

/// Which model is used, and where its file is.
#[derive(Clone, Debug, PartialEq, Eq)]
pub struct ModelConfig {
    pub path: String,
    pub name: String,
}

/// Which key is held to record.
#[derive(Clone, Debug, PartialEq, Eq)]
pub struct InputConfig {
    pub hotkey: String,
}

/// What is shown and done with a transcription.
#[derive(Clone, Copy, Debug, PartialEq, Eq, Structural)]
pub struct OutputConfig {
    pub show_word_count: bool,
    pub show_duration: bool,
    pub auto_type: bool,
    pub verbose: bool,
}

/// Whether and how much history is kept.
#[derive(Clone, Copy, Debug, PartialEq, Eq, Structural)]
pub struct HistoryConfig {
    pub enabled: bool,
    pub max_entries: usize,
}

/// The whole configuration.
#[derive(Clone, Debug, PartialEq, Eq)]
pub struct Config {
    pub model: ModelConfig,
    pub input: InputConfig,
    pub output: OutputConfig,
    pub history: HistoryConfig,
}

/// What a `Config` holds.
pub struct ConfigView {
    pub model_path: Seq<char>,
    pub model_name: Seq<char>,
    pub hotkey: Seq<char>,
    pub output: OutputConfig,
    pub history: HistoryConfig,
}

impl View for Config {
    type V = ConfigView;

    open spec fn view(&self) -> ConfigView {
        ConfigView {
            model_path: self.model.path@,
            model_name: self.model.name@,
            hotkey: self.input.hotkey@,
            output: self.output,
            history: self.history,
        }
    }
}

/// The output settings of a new configuration: everything is shown and
/// typed, without verbose output.
pub open spec fn default_output() -> OutputConfig {
    OutputConfig { show_word_count: true, show_duration: true, auto_type: true, verbose: false }
}

/// The history settings of a new configuration: history is kept, up to
/// `DEFAULT_MAX_ENTRIES` entries.
pub open spec fn default_history() -> HistoryConfig {
    HistoryConfig { enabled: true, max_entries: DEFAULT_MAX_ENTRIES }
}

impl Default for OutputConfig {
    fn default() -> (config: OutputConfig)
        ensures
            config == default_output(),
    {
        OutputConfig { show_word_count: true, show_duration: true, auto_type: true, verbose: false }
    }
}

impl Default for HistoryConfig {
    fn default() -> (config: HistoryConfig)
        ensures
            config == default_history(),
    {
        HistoryConfig { enabled: true, max_entries: DEFAULT_MAX_ENTRIES }
    }
}

impl Config {
    /// A configuration for the given model and hotkey, with the default
    /// output and history settings.
    pub fn new(model_path: String, model_name: String, hotkey: String) -> (config: Config)
        ensures
            config@ == (ConfigView {
                model_path: model_path@,
                model_name: model_name@,
                hotkey: hotkey@,
                output: default_output(),
                history: default_history(),
            }),
    {
        Config {
            model: ModelConfig { path: model_path, name: model_name },
            input: InputConfig { hotkey },
            output: OutputConfig {
                show_word_count: true,
                show_duration: true,
                auto_type: true,
                verbose: false,
            },
            history: HistoryConfig { enabled: true, max_entries: DEFAULT_MAX_ENTRIES },
        }
    }

    /// The directory of the application, below the home directory if one is
    /// known.
    pub fn app_dir(home: Option<&str>) -> (dir: String)
        ensures
            dir@ == app_dir_spec(
                match home {
                    Some(home) => Some(home@),
                    None => None,
                },
            ),
    {
        app_dir(home)
    }

    /// The path of the configuration file in the application directory
    /// `app_dir`.
    pub fn config_path(app_dir: &str) -> (path: String)
        ensures
            path@ == join_path_spec(app_dir@, "config.toml"@),
    {
        join_path(app_dir, "config.toml")
    }

    /// The path of the history directory in the application directory
    /// `app_dir`.
    pub fn history_dir(app_dir: &str) -> (path: String)
        ensures
            path@ == join_path_spec(app_dir@, "history"@),
    {
        join_path(app_dir, "history")
    }

    /// Changes the settings that a user interface can edit. Returns whether
    /// the hotkey changed, in which case the listener is to be restarted.
    pub fn update(
        &mut self,
        hotkey: String,
        auto_type: bool,
        show_word_count: bool,
        show_duration: bool,
    ) -> (hotkey_changed: bool)
        ensures
            hotkey_changed == (old(self)@.hotkey != hotkey@),
            final(self)@ == (ConfigView {
                hotkey: hotkey@,
                output: OutputConfig {
                    show_word_count,
                    show_duration,
                    auto_type,
                    verbose: old(self)@.output.verbose,
                },
                ..old(self)@
            }),
    {
        let hotkey_changed = !crate::text::str_equal(self.input.hotkey.as_str(), hotkey.as_str());
        self.input.hotkey = hotkey;
        self.output.auto_type = auto_type;
        self.output.show_word_count = show_word_count;
        self.output.show_duration = show_duration;
        hotkey_changed
    }

    /// Makes the model called `model_name`, stored at `model_path`, the
    /// model in use.
    pub fn set_model(&mut self, model_path: String, model_name: String)
        ensures
            final(self)@ == (ConfigView {
                model_path: model_path@,
                model_name: model_name@,
                ..old(self)@
            }),
    {
        self.model.path = model_path;
        self.model.name = model_name;
    }
}

} // verus!
