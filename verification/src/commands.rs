//! What a user interface asks of the application, as far as the answer is
//! computed: the configuration and the models in the shape in which they
//! are shown.

use vstd::prelude::*;
use vstd::string::*;
use crate::config::{Config, ConfigView};
use crate::models::{
    available_models,
    catalog,
    has_file,
    is_model_downloaded,
    model_file_name,
    model_views,
    ModelInfo,
    ModelInfoView,
};
use crate::text::str_equal;

verus! {

/// A model as a user interface shows it.
#[derive(Clone, Debug, PartialEq, Eq)]
pub struct ModelInfoResponse {
    pub name: String,
    pub filename: String,
    pub size_mb: u32,
    pub description: String,
    pub english_only: bool,
    pub downloaded: bool,
    pub active: bool,
}

/// What a `ModelInfoResponse` holds.
pub struct ModelInfoResponseView {
    pub model: ModelInfoView,
    pub downloaded: bool,
    pub active: bool,
}

impl View for ModelInfoResponse {
    type V = ModelInfoResponseView;

    open spec fn view(&self) -> ModelInfoResponseView {
        ModelInfoResponseView {
            model: ModelInfoView {
                name: self.name@,
                filename: self.filename@,
                size_mb: self.size_mb,
                description: self.description@,
                english_only: self.english_only,
            },
            downloaded: self.downloaded,
            active: self.active,
        }
    }
}

/// The configuration as a user interface shows it.
#[derive(Clone, Debug, PartialEq, Eq)]
pub struct ConfigResponse {
    pub model_name: String,
    pub model_path: String,
    pub hotkey: String,
    pub auto_type: bool,
    pub show_word_count: bool,
    pub show_duration: bool,
    pub history_enabled: bool,
}

/// What a `ConfigResponse` holds.
pub struct ConfigResponseView {
    pub model_name: Seq<char>,
    pub model_path: Seq<char>,
    pub hotkey: Seq<char>,
    pub auto_type: bool,
    pub show_word_count: bool,
    pub show_duration: bool,
    pub history_enabled: bool,
}

impl View for ConfigResponse {
    type V = ConfigResponseView;

    open spec fn view(&self) -> ConfigResponseView {
        ConfigResponseView {
            model_name: self.model_name@,
            model_path: self.model_path@,
            hotkey: self.hotkey@,
            auto_type: self.auto_type,
            show_word_count: self.show_word_count,
            show_duration: self.show_duration,
            history_enabled: self.history_enabled,
        }
    }
}

/// The shape in which `config` is shown.
pub open spec fn config_response(config: ConfigView) -> ConfigResponseView {
    ConfigResponseView {
        model_name: config.model_name,
        model_path: config.model_path,
        hotkey: config.hotkey,
        auto_type: config.output.auto_type,
        show_word_count: config.output.show_word_count,
        show_duration: config.output.show_duration,
        history_enabled: config.history.enabled,
    }
}

/// Puts a configuration into the shape in which it is shown.
pub fn get_config(config: &Config) -> (response: ConfigResponse)
    ensures
        response@ == config_response(config@),
{
    ConfigResponse {
        model_name: config.model.name.clone(),
        model_path: config.model.path.clone(),
        hotkey: config.input.hotkey.clone(),
        auto_type: config.output.auto_type,
        show_word_count: config.output.show_word_count,
        show_duration: config.output.show_duration,
        history_enabled: config.history.enabled,
    }
}

/// The shape in which `model` is shown, given the names of the files in the
/// application directory and the name of the model in use, if any.
pub open spec fn model_response(
    model: ModelInfoView,
    files: Seq<String>,
    active_model: Option<Seq<char>>,
) -> ModelInfoResponseView {
    ModelInfoResponseView {
        model,
        downloaded: has_file(files, model_file_name(model.name)),
        active: active_model == Some(model.name),
    }
}

/// The views of the responses in `responses`, in order.
pub open spec fn response_views(responses: Seq<ModelInfoResponse>) -> Seq<ModelInfoResponseView> {
    responses.map_values(|response: ModelInfoResponse| response@)
}

/// The whole catalog in the shape in which it is shown.
pub open spec fn available_model_responses(files: Seq<String>, active_model: Option<Seq<char>>)
    -> Seq<ModelInfoResponseView> {
    catalog().map_values(|model: ModelInfoView| model_response(model, files, active_model))
}

/// The name in `name`, as a sequence of characters.
pub open spec fn name_view(name: Option<&str>) -> Option<Seq<char>> {
    match name {
        Some(name) => Some(name@),
        None => None,
    }
}

fn respond(model: &ModelInfo, files: &Vec<String>, active_model: Option<&str>) -> (response:
    ModelInfoResponse)
    ensures
        response@ == model_response(model@, files@, name_view(active_model)),
{
    let active = match active_model {
        Some(active) => str_equal(active, model.name),
        None => false,
    };
    ModelInfoResponse {
        name: model.name.to_owned(),
        filename: model.filename.to_owned(),
        size_mb: model.size_mb,
        description: model.description.to_owned(),
        english_only: model.english_only,
        downloaded: is_model_downloaded(model.name, files),
        active,
    }
}

/// Lists the catalog for a user interface: each model with whether it is
/// downloaded and whether it is the one in use.
pub fn get_available_models(files: &Vec<String>, active_model: Option<&str>) -> (responses: Vec<
    ModelInfoResponse,
>)
    ensures
        response_views(responses@) == available_model_responses(files@, name_view(active_model)),
{
    let all = available_models();
    let mut responses: Vec<ModelInfoResponse> = Vec::new();
    let mut i: usize = 0;
    while i < all.len()
        invariant
            i <= all.len(),
            model_views(all@) == catalog(),
            responses@.len() == i,
            forall|k: int|
                0 <= k < i ==> (#[trigger] responses@[k])@ == model_response(
                    catalog()[k],
                    files@,
                    name_view(active_model),
                ),
        decreases all.len() - i,
    {
        assert(model_views(all@)[i as int] == all@[i as int]@);
        let response = respond(&all[i], files, active_model);
        responses.push(response);
        i = i + 1;
    }
    assert(response_views(responses@) =~= available_model_responses(
        files@,
        name_view(active_model),
    ));
    responses
}

/// The downloaded models of the catalog in the shape in which they are
/// shown.
pub open spec fn downloaded_model_responses(files: Seq<String>, active_model: Option<Seq<char>>)
    -> Seq<ModelInfoResponseView> {
    available_model_responses(files, active_model).filter(
        |response: ModelInfoResponseView| response.downloaded,
    )
}

/// Lists the downloaded models for a user interface.
pub fn get_downloaded_models(files: &Vec<String>, active_model: Option<&str>) -> (responses: Vec<
    ModelInfoResponse,
>)
    ensures
        response_views(responses@) == downloaded_model_responses(files@, name_view(active_model)),
{
    let all = available_models();
    let ghost shown = available_model_responses(files@, name_view(active_model));
    let ghost keep = |response: ModelInfoResponseView| response.downloaded;
    let mut responses: Vec<ModelInfoResponse> = Vec::new();
    let mut i: usize = 0;
    assert(shown.subrange(0, 0) =~= Seq::<ModelInfoResponseView>::empty());
    assert(response_views(responses@) =~= shown.subrange(0, 0).filter(keep)) by {
        reveal(Seq::filter);
    }
    while i < all.len()
        invariant
            i <= all.len(),
            model_views(all@) == catalog(),
            shown == available_model_responses(files@, name_view(active_model)),
            keep == |response: ModelInfoResponseView| response.downloaded,
            response_views(responses@) == shown.subrange(0, i as int).filter(keep),
        decreases all.len() - i,
    {
        assert(model_views(all@)[i as int] == all@[i as int]@);
        let response = respond(&all[i], files, active_model);
        let ghost shown_here = response@;
        let ghost before = response_views(responses@);
        assert(shown[i as int] == shown_here);
        if response.downloaded {
            responses.push(response);
            assert(response_views(responses@) =~= before.push(shown_here));
        }
        proof {
            let prefix = shown.subrange(0, i as int);
            assert(shown.subrange(0, i + 1) =~= prefix.push(shown_here));
            reveal(Seq::filter);
            assert(prefix.push(shown_here).drop_last() =~= prefix);
        }
        i = i + 1;
    }
    assert(shown.subrange(0, all.len() as int) =~= shown);
    responses
}

} // verus!
