//! Decisions of the command line program: which settings a run uses, when
//! the setup comes first, and what the setup proposes.

use vstd::prelude::*;
use vstd::string::*;
use crate::config::{default_history, default_output, Config, ConfigView, OutputConfig};
use crate::history::text_view;
use crate::hotkeys::{hotkey_options, hotkey_table, pair_views};
use crate::models::{available_models, catalog, model_views, ModelInfoView};
use crate::text::{
    decimal,
    push_decimal,
    str_equal,
    to_lowercase,
    trim,
    trim_spec,
    unicode_lowercase,
    word_count,
    word_count_spec,
};

verus! {

/// The settings of one run: the configuration, and what the command line
/// put in place of parts of it.
#[derive(Clone, Debug, PartialEq, Eq)]
pub struct RunSettings {
    pub config: Config,
    pub model_path: String,
    pub hotkey: String,
    pub model_name: String,
    pub verbose: bool,
}

/// What `RunSettings` hold.
pub struct RunSettingsView {
    pub config: ConfigView,
    pub model_path: Seq<char>,
    pub hotkey: Seq<char>,
    pub model_name: Seq<char>,
    pub verbose: bool,
}

impl View for RunSettings {
    type V = RunSettingsView;

    open spec fn view(&self) -> RunSettingsView {
        RunSettingsView {
            config: self.config@,
            model_path: self.model_path@,
            hotkey: self.hotkey@,
            model_name: self.model_name@,
            verbose: self.verbose,
        }
    }
}

/// The view of an optional configuration.
pub open spec fn config_of(config: Option<Config>) -> Option<ConfigView> {
    match config {
        Some(config) => Some(config@),
        None => None,
    }
}

/// The configuration of a run: the stored one, or, where none is stored, one
/// made up for the model given on the command line, under the name
/// "custom" and with the hotkey given there or else "RightAlt". Without
/// either there is none.
pub open spec fn run_config(
    stored: Option<ConfigView>,
    model_override: Option<Seq<char>>,
    hotkey_override: Option<Seq<char>>,
) -> Option<ConfigView> {
    match stored {
        Some(config) => Some(config),
        None => match model_override {
            Some(model_path) => Some(
                ConfigView {
                    model_path,
                    model_name: "custom"@,
                    hotkey: match hotkey_override {
                        Some(hotkey) => hotkey,
                        None => "RightAlt"@,
                    },
                    output: default_output(),
                    history: default_history(),
                },
            ),
            None => None,
        },
    }
}

/// The settings of a run with the configuration `config`: what the command
/// line gives goes before what is configured.
pub open spec fn run_settings(
    config: ConfigView,
    model_override: Option<Seq<char>>,
    hotkey_override: Option<Seq<char>>,
    verbose_override: bool,
) -> RunSettingsView {
    RunSettingsView {
        config,
        model_path: match model_override {
            Some(model_path) => model_path,
            None => config.model_path,
        },
        hotkey: match hotkey_override {
            Some(hotkey) => hotkey,
            None => config.hotkey,
        },
        model_name: config.model_name,
        verbose: verbose_override || config.output.verbose,
    }
}

/// Puts the settings of a run together from the stored configuration, if
/// there is one, and the command line. Without a stored configuration and
/// without a model on the command line there is nothing to run with, which
/// is an error.
pub fn resolve_run_settings(
    stored: Option<Config>,
    model_override: Option<String>,
    hotkey_override: Option<String>,
    verbose_override: bool,
) -> (resolved: Result<RunSettings, String>)
    ensures
        match run_config(config_of(stored), text_view(model_override), text_view(hotkey_override)) {
            Some(config) => resolved is Ok && resolved->Ok_0@ == run_settings(
                config,
                text_view(model_override),
                text_view(hotkey_override),
                verbose_override,
            ),
            None => resolved is Err && resolved->Err_0@
                == "No configuration found. Run 'transcribble setup' or provide --model flag."@,
        },
{
    let config = match stored {
        Some(config) => config,
        None => match &model_override {
            Some(model_path) => {
                let hotkey = match &hotkey_override {
                    Some(hotkey) => hotkey.clone(),
                    None => "RightAlt".to_owned(),
                };
                Config::new(model_path.clone(), "custom".to_owned(), hotkey)
            },
            None => {
                return Err(
                    "No configuration found. Run 'transcribble setup' or provide --model flag.".to_owned(),
                );
            },
        },
    };
    let model_path = match model_override {
        Some(model_path) => model_path,
        None => config.model.path.clone(),
    };
    let hotkey = match hotkey_override {
        Some(hotkey) => hotkey,
        None => config.input.hotkey.clone(),
    };
    let model_name = config.model.name.clone();
    let verbose = verbose_override || config.output.verbose;
    Ok(RunSettings { config, model_path, hotkey, model_name, verbose })
}

/// Whether a run starts with the setup: there is no stored configuration
/// and no model on the command line.
pub fn needs_setup(config_exists: bool, model_given: bool) -> (setup: bool)
    ensures
        setup == (!config_exists && !model_given),
{
    !config_exists && !model_given
}

/// Whether an answer, once trimmed and in lowercase, says yes.
pub fn is_yes(answer: &str) -> (yes: bool)
    ensures
        yes == (answer@ == "y"@),
{
    str_equal(answer, "y")
}

/// Whether what was typed at a yes-or-no question confirms it: "y", in
/// either letter case and with any whitespace around it.
pub fn is_confirmation(input: &str) -> (confirmed: bool)
    ensures
        confirmed == (unicode_lowercase(trim_spec(input@)) == "y"@),
{
    let trimmed = trim(input);
    let lowered = to_lowercase(trimmed.as_str());
    is_yes(lowered.as_str())
}

/// The message for a model that is to be used but is not downloaded, or
/// that is to be used without a stored configuration; `None` if the model
/// can be used.
pub open spec fn use_model_problem(model_name: Seq<char>, downloaded: bool, config_exists: bool)
    -> Option<Seq<char>> {
    if !downloaded {
        Some(
            "Model '"@ + model_name + "' is not downloaded. Run 'transcribble models --download "@
                + model_name + "' first."@,
        )
    } else if !config_exists {
        Some("No configuration found. Run 'transcribble setup' first."@)
    } else {
        None
    }
}

/// Checks whether the model called `model_name` can be made the model in
/// use.
pub fn check_use_model(model_name: &str, downloaded: bool, config_exists: bool) -> (checked:
    Result<(), String>)
    ensures
        match use_model_problem(model_name@, downloaded, config_exists) {
            Some(message) => checked is Err && checked->Err_0@ == message,
            None => checked is Ok,
        },
{
    if !downloaded {
        let mut message = "Model '".to_owned();
        message.append(model_name);
        message.append("' is not downloaded. Run 'transcribble models --download ");
        message.append(model_name);
        message.append("' first.");
        Err(message)
    } else if !config_exists {
        Err("No configuration found. Run 'transcribble setup' first.".to_owned())
    } else {
        Ok(())
    }
}

/// The index of the first model among `models[from..]` that is called
/// `name`, or `fallback` if there is none.
pub open spec fn model_index(models: Seq<ModelInfoView>, name: Seq<char>, from: int, fallback: int)
    -> int
    decreases models.len() - from,
{
    if from < 0 || from >= models.len() {
        fallback
    } else if models[from].name == name {
        from
    } else {
        model_index(models, name, from + 1, fallback)
    }
}

/// The index of the first hotkey among `table[from..]` that is configured
/// under `name`, or `fallback` if there is none.
pub open spec fn hotkey_index(
    table: Seq<(Seq<char>, Seq<char>)>,
    name: Seq<char>,
    from: int,
    fallback: int,
) -> int
    decreases table.len() - from,
{
    if from < 0 || from >= table.len() {
        fallback
    } else if table[from].0 == name {
        from
    } else {
        hotkey_index(table, name, from + 1, fallback)
    }
}

/// The index of the recommended model, "base.en", in the catalog.
pub const RECOMMENDED_MODEL_INDEX: usize = 2;

/// Finds the model that a selection list proposes: the model called
/// `current`, or the one at the index `fallback` where there is no such
/// model in the catalog.
pub fn proposed_model_index(current: Option<&str>, fallback: usize) -> (index: usize)
    ensures
        index == match current {
            Some(name) => model_index(catalog(), name@, 0, fallback as int),
            None => fallback as int,
        },
{
    match current {
        Some(name) => {
            let models = available_models();
            let mut i: usize = 0;
            while i < models.len()
                invariant
                    i <= models.len(),
                    current == Some(name),
                    model_views(models@) == catalog(),
                    model_index(catalog(), name@, 0, fallback as int) == model_index(
                        catalog(),
                        name@,
                        i as int,
                        fallback as int,
                    ),
                decreases models.len() - i,
            {
                assert(model_views(models@)[i as int] == models@[i as int]@);
                if str_equal(models[i].name, name) {
                    return i;
                }
                i = i + 1;
            }
            fallback
        },
        None => fallback,
    }
}

/// Finds the hotkey that a selection list proposes: the one configured
/// under `current`, or the first where there is no such hotkey on offer.
pub fn proposed_hotkey_index(current: Option<&str>) -> (index: usize)
    ensures
        index == match current {
            Some(name) => hotkey_index(hotkey_table(), name@, 0, 0),
            None => 0,
        },
{
    match current {
        Some(name) => {
            let options = hotkey_options();
            let mut i: usize = 0;
            while i < options.len()
                invariant
                    i <= options.len(),
                    current == Some(name),
                    pair_views(options@) == hotkey_table(),
                    hotkey_index(hotkey_table(), name@, 0, 0) == hotkey_index(
                        hotkey_table(),
                        name@,
                        i as int,
                        0,
                    ),
                decreases options.len() - i,
            {
                assert(pair_views(options@)[i as int] == (
                    options@[i as int].0@,
                    options@[i as int].1@,
                ));
                if str_equal(options[i].0, name) {
                    return i;
                }
                i = i + 1;
            }
            0
        },
        None => 0,
    }
}

/// The configuration after model and hotkey were chosen anew: the existing
/// one with the three choices put in, or a new one where none exists.
pub open spec fn reconfigured(
    existing: Option<ConfigView>,
    model_path: Seq<char>,
    model_name: Seq<char>,
    hotkey: Seq<char>,
) -> ConfigView {
    match existing {
        Some(config) => ConfigView { model_path, model_name, hotkey, ..config },
        None => ConfigView {
            model_path,
            model_name,
            hotkey,
            output: default_output(),
            history: default_history(),
        },
    }
}

/// Puts a new choice of model and hotkey into the configuration, keeping
/// the other settings of an existing one.
pub fn reconfigure(
    existing: Option<Config>,
    model_path: String,
    model_name: String,
    hotkey: String,
) -> (config: Config)
    ensures
        config@ == reconfigured(config_of(existing), model_path@, model_name@, hotkey@),
{
    match existing {
        Some(existing) => {
            let mut config = existing;
            config.model.path = model_path;
            config.model.name = model_name;
            config.input.hotkey = hotkey;
            config
        },
        None => Config::new(model_path, model_name, hotkey),
    }
}

/// What is shown beside a transcription: the duration, then the number of
/// words, each only if it is switched on, separated by a comma. `None` if
/// both are switched off.
pub open spec fn transcription_stats_spec(
    output: OutputConfig,
    duration_text: Seq<char>,
    text: Seq<char>,
) -> Option<Seq<char>> {
    let words = decimal(word_count_spec(text)) + " words"@;
    if output.show_duration && output.show_word_count {
        Some(duration_text + ", "@ + words)
    } else if output.show_duration {
        Some(duration_text)
    } else if output.show_word_count {
        Some(words)
    } else {
        None
    }
}

/// Renders what is shown beside the transcription `text`, given the
/// duration of the recording as it is to be shown.
pub fn transcription_stats(output: &OutputConfig, duration_text: &str, text: &str) -> (stats:
    Option<String>)
    ensures
        text_view(stats) == transcription_stats_spec(*output, duration_text@, text@),
{
    if !output.show_duration && !output.show_word_count {
        return None;
    }
    let mut stats = String::new();
    if output.show_duration {
        stats.append(duration_text);
    }
    if output.show_word_count {
        if output.show_duration {
            stats.append(", ");
        }
        push_decimal(&mut stats, word_count(text) as u64);
        stats.append(" words");
    }
    proof {
        assert(stats@ =~= transcription_stats_spec(*output, duration_text@, text@)->0);
    }
    Some(stats)
}

/// The number of entries that a listing of `shown` entries says it shows,
/// when `asked` were asked for.
pub fn shown_count(shown: usize, asked: usize) -> (count: usize)
    ensures
        count == if shown <= asked {
            shown
        } else {
            asked
        },
{
    if shown <= asked {
        shown
    } else {
        asked
    }
}

} // verus!
