//! The catalog of speech models, and which of them are on disk.

use vstd::prelude::*;
use vstd::string::*;
use crate::paths::{join_path, join_path_spec};
use crate::text::{decimal, push_decimal, str_equal};

verus! {

/// One model of the catalog.
#[derive(Clone, Copy, Debug, PartialEq, Eq)]
pub struct ModelInfo {
    pub name: &'static str,
    pub filename: &'static str,
    pub size_mb: u32,
    pub description: &'static str,
    pub english_only: bool,
}

/// What a `ModelInfo` holds.
pub struct ModelInfoView {
    pub name: Seq<char>,
    pub filename: Seq<char>,
    pub size_mb: u32,
    pub description: Seq<char>,
    pub english_only: bool,
}

impl View for ModelInfo {
    type V = ModelInfoView;

    open spec fn view(&self) -> ModelInfoView {
        ModelInfoView {
            name: self.name@,
            filename: self.filename@,
            size_mb: self.size_mb,
            description: self.description@,
            english_only: self.english_only,
        }
    }
}

/// The views of the models in `models`, in order.
pub open spec fn model_views(models: Seq<ModelInfo>) -> Seq<ModelInfoView> {
    models.map_values(|model: ModelInfo| model@)
}

/// The catalog: every model that can be downloaded, smallest first.
pub open spec fn catalog() -> Seq<ModelInfoView> {
    seq![
        ModelInfoView {
            name: "tiny.en"@,
            filename: "ggml-tiny.en.bin"@,
            size_mb: 75,
            description: "Fastest, good for quick notes (English only)"@,
            english_only: true,
        },
        ModelInfoView {
            name: "tiny"@,
            filename: "ggml-tiny.bin"@,
            size_mb: 75,
            description: "Fastest, multilingual support"@,
            english_only: false,
        },
        ModelInfoView {
            name: "base.en"@,
            filename: "ggml-base.en.bin"@,
            size_mb: 142,
            description: "Good balance of speed and accuracy (English only)"@,
            english_only: true,
        },
        ModelInfoView {
            name: "base"@,
            filename: "ggml-base.bin"@,
            size_mb: 142,
            description: "Good balance, multilingual"@,
            english_only: false,
        },
        ModelInfoView {
            name: "small.en"@,
            filename: "ggml-small.en.bin"@,
            size_mb: 466,
            description: "More accurate, slower (English only)"@,
            english_only: true,
        },
        ModelInfoView {
            name: "small"@,
            filename: "ggml-small.bin"@,
            size_mb: 466,
            description: "More accurate, multilingual"@,
            english_only: false,
        },
        ModelInfoView {
            name: "medium.en"@,
            filename: "ggml-medium.en.bin"@,
            size_mb: 1500,
            description: "High accuracy, requires more RAM (English only)"@,
            english_only: true,
        },
        ModelInfoView {
            name: "medium"@,
            filename: "ggml-medium.bin"@,
            size_mb: 1500,
            description: "High accuracy, multilingual"@,
            english_only: false,
        },
    ]
}

/// Lists the catalog.
pub fn available_models() -> (models: Vec<ModelInfo>)
    ensures
        model_views(models@) == catalog(),
{
    let mut models: Vec<ModelInfo> = Vec::new();
    models.push(
        ModelInfo {
            name: "tiny.en",
            filename: "ggml-tiny.en.bin",
            size_mb: 75,
            description: "Fastest, good for quick notes (English only)",
            english_only: true,
        },
    );
    models.push(
        ModelInfo {
            name: "tiny",
            filename: "ggml-tiny.bin",
            size_mb: 75,
            description: "Fastest, multilingual support",
            english_only: false,
        },
    );
    models.push(
        ModelInfo {
            name: "base.en",
            filename: "ggml-base.en.bin",
            size_mb: 142,
            description: "Good balance of speed and accuracy (English only)",
            english_only: true,
        },
    );
    models.push(
        ModelInfo {
            name: "base",
            filename: "ggml-base.bin",
            size_mb: 142,
            description: "Good balance, multilingual",
            english_only: false,
        },
    );
    models.push(
        ModelInfo {
            name: "small.en",
            filename: "ggml-small.en.bin",
            size_mb: 466,
            description: "More accurate, slower (English only)",
            english_only: true,
        },
    );
    models.push(
        ModelInfo {
            name: "small",
            filename: "ggml-small.bin",
            size_mb: 466,
            description: "More accurate, multilingual",
            english_only: false,
        },
    );
    models.push(
        ModelInfo {
            name: "medium.en",
            filename: "ggml-medium.en.bin",
            size_mb: 1500,
            description: "High accuracy, requires more RAM (English only)",
            english_only: true,
        },
    );
    models.push(
        ModelInfo {
            name: "medium",
            filename: "ggml-medium.bin",
            size_mb: 1500,
            description: "High accuracy, multilingual",
            english_only: false,
        },
    );
    assert(model_views(models@) =~= catalog());
    models
}

/// The first model among `models[from..]` with the name `name`.
pub open spec fn find_model(models: Seq<ModelInfoView>, name: Seq<char>, from: int) -> Option<
    ModelInfoView,
>
    decreases models.len() - from,
{
    if from < 0 || from >= models.len() {
        None
    } else if models[from].name == name {
        Some(models[from])
    } else {
        find_model(models, name, from + 1)
    }
}

/// Looks a model up in the catalog by its name.
pub fn get_model_info(name: &str) -> (found: Option<ModelInfo>)
    ensures
        match find_model(catalog(), name@, 0) {
            Some(model) => found is Some && found->0@ == model,
            None => found is None,
        },
{
    let models = available_models();
    let mut i: usize = 0;
    while i < models.len()
        invariant
            i <= models.len(),
            model_views(models@) == catalog(),
            find_model(catalog(), name@, 0) == find_model(catalog(), name@, i as int),
        decreases models.len() - i,
    {
        assert(model_views(models@)[i as int] == models@[i as int]@);
        if str_equal(models[i].name, name) {
            return Some(models[i]);
        }
        i = i + 1;
    }
    None
}

/// The name of the file that holds the model called `model_name`.
pub open spec fn model_file_name(model_name: Seq<char>) -> Seq<char> {
    "ggml-"@ + model_name + ".bin"@
}

/// Names the file that holds a model.
pub fn get_model_file_name(model_name: &str) -> (file: String)
    ensures
        file@ == model_file_name(model_name@),
{
    let mut file = "ggml-".to_owned();
    file.append(model_name);
    file.append(".bin");
    file
}

/// The path at which a model is stored below the application directory
/// `app_dir`.
pub fn get_model_path(app_dir: &str, model_name: &str) -> (path: String)
    ensures
        path@ == join_path_spec(app_dir@, model_file_name(model_name@)),
{
    let file = get_model_file_name(model_name);
    join_path(app_dir, file.as_str())
}

/// Whether one of `files` is called `name`.
pub open spec fn has_file(files: Seq<String>, name: Seq<char>) -> bool {
    exists|i: int| 0 <= i < files.len() && (#[trigger] files[i])@ == name
}

/// Tells whether one of `files` is called `name`.
pub(crate) fn contains_file(files: &Vec<String>, name: &str) -> (found: bool)
    ensures
        found == has_file(files@, name@),
{
    let mut i: usize = 0;
    while i < files.len()
        invariant
            i <= files.len(),
            forall|k: int| 0 <= k < i ==> (#[trigger] files@[k])@ != name@,
        decreases files.len() - i,
    {
        if str_equal(files[i].as_str(), name) {
            return true;
        }
        i = i + 1;
    }
    false
}

/// Whether the model called `model_name` is downloaded, given the names of
/// the files in the application directory.
pub fn is_model_downloaded(model_name: &str, files: &Vec<String>) -> (downloaded: bool)
    ensures
        downloaded == has_file(files@, model_file_name(model_name@)),
{
    let file = get_model_file_name(model_name);
    contains_file(files, file.as_str())
}

/// The models of the catalog that are downloaded, in catalog order, given
/// the names of the files in the application directory.
pub open spec fn downloaded_models(files: Seq<String>) -> Seq<ModelInfoView> {
    catalog().filter(|model: ModelInfoView| has_file(files, model_file_name(model.name)))
}

/// Lists the downloaded models.
pub fn list_downloaded_models(files: &Vec<String>) -> (models: Vec<ModelInfo>)
    ensures
        model_views(models@) == downloaded_models(files@),
{
    let all = available_models();
    let mut models: Vec<ModelInfo> = Vec::new();
    let ghost keep = |model: ModelInfoView| has_file(files@, model_file_name(model.name));
    let mut i: usize = 0;
    assert(catalog().subrange(0, 0) =~= Seq::<ModelInfoView>::empty());
    assert(model_views(models@) =~= catalog().subrange(0, 0).filter(keep)) by {
        reveal(Seq::filter);
    }
    while i < all.len()
        invariant
            i <= all.len(),
            model_views(all@) == catalog(),
            keep == |model: ModelInfoView| has_file(files@, model_file_name(model.name)),
            model_views(models@) == catalog().subrange(0, i as int).filter(keep),
        decreases all.len() - i,
    {
        let model = all[i];
        assert(model_views(all@)[i as int] == model@);
        let ghost before = model_views(models@);
        if is_model_downloaded(model.name, files) {
            models.push(model);
            assert(model_views(models@) =~= before.push(model@));
        }
        proof {
            let prefix = catalog().subrange(0, i as int);
            assert(catalog().subrange(0, i + 1) =~= prefix.push(model@));
            reveal(Seq::filter);
            assert(prefix.push(model@).drop_last() =~= prefix);
        }
        i = i + 1;
    }
    assert(catalog().subrange(0, all.len() as int) =~= catalog());
    models
}

/// One line for a model in a selection list: its name, its size, whether it
/// is downloaded, and its description.
pub open spec fn selection_line(model: ModelInfoView, downloaded: bool) -> Seq<char> {
    model.name + " ("@ + decimal(model.size_mb as nat) + " MB)"@ + (if downloaded {
        " [downloaded]"@
    } else {
        Seq::empty()
    }) + " - "@ + model.description
}

impl ModelInfo {
    /// Renders the model for a selection list.
    pub fn display_for_selection(&self, downloaded: bool) -> (line: String)
        ensures
            line@ == selection_line(self@, downloaded),
    {
        let mut line = self.name.to_owned();
        line.append(" (");
        push_decimal(&mut line, self.size_mb as u64);
        line.append(" MB)");
        if downloaded {
            line.append(" [downloaded]");
        }
        line.append(" - ");
        line.append(self.description);
        assert(line@ =~= selection_line(self@, downloaded));
        line
    }
}

} // verus!
