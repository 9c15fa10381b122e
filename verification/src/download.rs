//! Downloading a model: where it comes from, where it goes, and how far a
//! download has come.
//!
//! The transfer itself is left to the caller.

use vstd::prelude::*;
use vstd::string::*;
use crate::models::{
    available_models,
    catalog,
    contains_file,
    find_model,
    get_model_info,
    has_file,
    model_views,
    ModelInfoView,
};
use crate::paths::{join_path, join_path_spec};

verus! {

/// What to do to have a model on disk.
#[derive(Clone, Debug, PartialEq, Eq)]
pub struct DownloadPlan {
    /// The address the model is fetched from.
    pub url: String,
    /// The path the model is stored at.
    pub path: String,
    /// Whether the file is there already, so that nothing is fetched.
    pub already_present: bool,
}

/// What a `DownloadPlan` holds.
pub struct DownloadPlanView {
    pub url: Seq<char>,
    pub path: Seq<char>,
    pub already_present: bool,
}

impl View for DownloadPlan {
    type V = DownloadPlanView;

    open spec fn view(&self) -> DownloadPlanView {
        DownloadPlanView { url: self.url@, path: self.path@, already_present: self.already_present }
    }
}

/// The names of the first `n` models of `models`, separated by a comma and
/// a space.
pub open spec fn model_names(models: Seq<ModelInfoView>, n: int) -> Seq<char>
    decreases n,
{
    if n <= 0 {
        Seq::empty()
    } else if n == 1 {
        models[0].name
    } else {
        model_names(models, n - 1) + ", "@ + models[n - 1].name
    }
}

/// The message for a model that is not in the catalog: it names the model
/// and lists the catalog.
pub open spec fn unknown_model_message(model_name: Seq<char>) -> Seq<char> {
    "Unknown model: "@ + model_name + ". Available models: "@ + model_names(
        catalog(),
        catalog().len() as int,
    )
}

/// The address from which the file called `filename` is fetched.
pub open spec fn download_url(filename: Seq<char>) -> Seq<char> {
    "https://huggingface.co/ggerganov/whisper.cpp/resolve/main"@ + "/"@ + filename
}

/// The plan for the model `model`, stored in `app_dir`, where `files` are
/// the names of the files that are there.
pub open spec fn download_plan(model: ModelInfoView, app_dir: Seq<char>, files: Seq<String>)
    -> DownloadPlanView {
    DownloadPlanView {
        url: download_url(model.filename),
        path: join_path_spec(app_dir, model.filename),
        already_present: has_file(files, model.filename),
    }
}

fn list_model_names() -> (names: String)
    ensures
        names@ == model_names(catalog(), catalog().len() as int),
{
    let models = available_models();
    let mut names = String::new();
    let mut i: usize = 0;
    while i < models.len()
        invariant
            i <= models.len(),
            model_views(models@) == catalog(),
            names@ == model_names(catalog(), i as int),
        decreases models.len() - i,
    {
        assert(model_views(models@)[i as int] == models@[i as int]@);
        if i > 0 {
            names.append(", ");
        }
        names.append(models[i].name);
        proof {
            if i == 0 {
                assert(names@ =~= model_names(catalog(), 1));
            } else {
                assert(names@ =~= model_names(catalog(), i + 1));
            }
        }
        i = i + 1;
    }
    names
}

/// Plans the download of the model called `model_name` into the
/// application directory `app_dir`, given the names of the files in that
/// directory. A model that is not in the catalog is an error.
pub fn plan_download(model_name: &str, app_dir: &str, files: &Vec<String>) -> (plan: Result<
    DownloadPlan,
    String,
>)
    ensures
        match find_model(catalog(), model_name@, 0) {
            Some(model) => plan is Ok && plan->Ok_0@ == download_plan(model, app_dir@, files@),
            None => plan is Err && plan->Err_0@ == unknown_model_message(model_name@),
        },
{
    match get_model_info(model_name) {
        Some(model) => {
            let mut url = "https://huggingface.co/ggerganov/whisper.cpp/resolve/main".to_owned();
            url.append("/");
            url.append(model.filename);
            let path = join_path(app_dir, model.filename);
            let present = contains_file(files, model.filename);
            Ok(DownloadPlan { url, path, already_present: present })
        },
        None => {
            let mut message = "Unknown model: ".to_owned();
            message.append(model_name);
            message.append(". Available models: ");
            let names = list_model_names();
            message.append(names.as_str());
            Err(message)
        },
    }
}

/// The message for a server that answers a download with the status
/// `status`, which is no success.
pub fn download_failed_message(status: &str) -> (message: String)
    ensures
        message@ == "Failed to download: HTTP "@ + status@,
{
    let mut message = "Failed to download: HTTP ".to_owned();
    message.append(status);
    message
}

/// How far a download has come: the bytes received so far, and the bytes
/// expected in all, zero where the server did not say.
#[derive(Clone, Copy, Debug, PartialEq, Eq, Structural)]
pub struct DownloadProgress {
    pub downloaded: u64,
    pub total: u64,
}

impl DownloadProgress {
    /// A download of `total` bytes, or of an unknown number, of which
    /// nothing is received yet.
    pub fn new(total: Option<u64>) -> (progress: DownloadProgress)
        ensures
            progress.downloaded == 0,
            progress.total == match total {
                Some(total) => total,
                None => 0,
            },
    {
        DownloadProgress {
            downloaded: 0,
            total: match total {
                Some(total) => total,
                None => 0,
            },
        }
    }

    /// Counts a chunk of `chunk_len` bytes that was received.
    pub fn advance(&mut self, chunk_len: usize)
        requires
            old(self).downloaded + chunk_len <= u64::MAX,
        ensures
            final(self).downloaded == old(self).downloaded + chunk_len,
            final(self).total == old(self).total,
    {
        self.downloaded = self.downloaded + chunk_len as u64;
    }
}

} // verus!
