//! Downloading a search result from Hugging Face, and following its progress.
use vstd::prelude::*;

use crate::app::{App, Command};
use crate::lists::{searching, visible_catalog};
use crate::records::{CatalogModel, ModelTransferEvent};
use crate::removal::{catalog_model_index, first_catalog_with_id};
use crate::text::equals;

verus! {

/// Why the selected search result cannot be downloaded, if it cannot.
pub open spec fn pull_refusal(model: CatalogModel) -> Option<Seq<char>> {
    if model.downloaded {
        Some("model is already downloaded"@)
    } else if model.local_source@ == "hf_cache"@ {
        Some("model is already available in the external HF cache"@)
    } else if model.compatibility@ != "supported"@ {
        Some("only models supported by libmir can be downloaded"@)
    } else if model.memory_fit@ == "does_not_fit"@ {
        Some("estimated model memory exceeds the current device budget"@)
    } else {
        None
    }
}

/// What `d` does: refuse with a message, do nothing, or download a repository.
pub enum PullDecision {
    Refuse(Seq<char>),
    Nothing,
    Pull(Seq<char>),
}

/// Whether `d` on the models screen downloads, refuses, or does nothing.
pub open spec fn pull_decision(app: App) -> PullDecision {
    if app.transfer_pending {
        PullDecision::Refuse("another download is already active"@)
    } else if !searching(app) {
        PullDecision::Refuse("search Hugging Face before downloading a model"@)
    } else if (app.catalog_selected as int) >= visible_catalog(app).len() {
        PullDecision::Nothing
    } else {
        let model = visible_catalog(app)[app.catalog_selected as int];
        match pull_refusal(model) {
            Some(message) => PullDecision::Refuse(message),
            None => PullDecision::Pull(model.id@),
        }
    }
}

/// Why `model` cannot be downloaded, if it cannot.
fn refusal(model: &CatalogModel) -> (message: Option<String>)
    ensures
        match pull_refusal(*model) {
            Some(m) => message matches Some(s) && s@ == m,
            None => message is None,
        },
{
    if model.downloaded {
        Some("model is already downloaded".to_owned())
    } else if equals(model.local_source.as_str(), "hf_cache") {
        Some("model is already available in the external HF cache".to_owned())
    } else if !equals(model.compatibility.as_str(), "supported") {
        Some("only models supported by libmir can be downloaded".to_owned())
    } else if equals(model.memory_fit.as_str(), "does_not_fit") {
        Some("estimated model memory exceeds the current device budget".to_owned())
    } else {
        None
    }
}

/// `app` after `d` on the models screen: the selected search result starts downloading, or
/// the action message says why it cannot.
pub open spec fn pull_started(pre: App, post: App, command: Option<Command>) -> bool {
    &&& (pull_decision(pre) matches PullDecision::Refuse(m) ==> {
        &&& command is None
        &&& post == (App { action_message: post.action_message, ..pre })
        &&& (post.action_message matches Some(s) && s@ == m)
    })
    &&& (pull_decision(pre) matches PullDecision::Nothing ==> command is None && post == pre)
    &&& (pull_decision(pre) matches PullDecision::Pull(repo) ==> {
        &&& (command matches Some(Command::PullModel { repo_id }) && repo_id@ == repo)
        &&& post == (App {
            transfer_repo: post.transfer_repo,
            transfer_phase: post.transfer_phase,
            transfer_downloaded_bytes: 0,
            transfer_total_bytes: None,
            transfer_pending: true,
            action_message: None,
            ..pre
        })
        &&& (post.transfer_repo matches Some(r) && r@ == repo)
        &&& (post.transfer_phase matches Some(p) && p@ == "starting"@)
    })
}

impl App {
    /// `d` downloads the selected search result when it can be downloaded; otherwise the
    /// action message says why not.
    pub fn start_pull(&mut self) -> (command: Option<Command>)
        ensures
            pull_started(*old(self), *final(self), command),
    {
        if self.transfer_pending {
            self.action_message = Some("another download is already active".to_owned());
            return None;
        }
        if !self.searching_models() {
            self.action_message = Some("search Hugging Face before downloading a model".to_owned());
            return None;
        }
        let (message, repo_id) = match self.selected_catalog_model() {
            None => return None,
            Some(model) => (refusal(model), model.id.clone()),
        };
        if let Some(message) = message {
            self.action_message = Some(message);
            return None;
        }
        self.transfer_repo = Some(repo_id.clone());
        self.transfer_phase = Some("starting".to_owned());
        self.transfer_downloaded_bytes = 0;
        self.transfer_total_bytes = None;
        self.action_message = None;
        self.transfer_pending = true;
        Some(Command::PullModel { repo_id })
    }

    /// Takes a download progress event: its phase, byte counts and message; once the model is
    /// available its search result is marked as downloaded into Mirmir's cache.
    pub fn apply_transfer(&mut self, event: ModelTransferEvent)
        ensures
            final(self).transfer_phase == Some(event.phase),
            final(self).transfer_downloaded_bytes == (if event.downloaded_bytes > 0 {
                event.downloaded_bytes
            } else {
                old(self).transfer_downloaded_bytes
            }),
            final(self).transfer_total_bytes == (if event.total_bytes is Some {
                event.total_bytes
            } else {
                old(self).transfer_total_bytes
            }),
            final(self).action_message == Some(event.message),
            final(self).catalog@.len() == old(self).catalog@.len(),
            forall|i: int|
                0 <= i < old(self).catalog@.len() ==> (#[trigger] final(self).catalog@[i]) == (if event.phase@
                    == "available"@ && first_catalog_with_id(old(self).catalog@, event.repo_id@) == Some(i) {
                    CatalogModel {
                        downloaded: true,
                        local_source: final(self).catalog@[i].local_source,
                        ..old(self).catalog@[i]
                    }
                } else {
                    old(self).catalog@[i]
                }),
            event.phase@ == "available"@ ==> (first_catalog_with_id(old(self).catalog@, event.repo_id@) matches Some(
                i,
            ) ==> final(self).catalog@[i].local_source@ == "mirmir"@),
            *final(self) == (App {
                transfer_phase: final(self).transfer_phase,
                transfer_downloaded_bytes: final(self).transfer_downloaded_bytes,
                transfer_total_bytes: final(self).transfer_total_bytes,
                action_message: final(self).action_message,
                catalog: final(self).catalog,
                ..*old(self)
            }),
    {
        let available = equals(event.phase.as_str(), "available");
        if available {
            mark_downloaded(&mut self.catalog, event.repo_id.as_str());
        }
        let downloaded = if event.downloaded_bytes > 0 {
            event.downloaded_bytes
        } else {
            self.transfer_downloaded_bytes
        };
        let total = if event.total_bytes.is_some() {
            event.total_bytes
        } else {
            self.transfer_total_bytes
        };
        self.transfer_phase = Some(event.phase);
        self.transfer_downloaded_bytes = downloaded;
        self.transfer_total_bytes = total;
        self.action_message = Some(event.message);
    }

    /// A download stream reported an error; the error becomes the action message.
    pub fn transfer_failed(&mut self, error: String)
        ensures
            *final(self) == (App { action_message: Some(error), ..*old(self) }),
    {
        self.action_message = Some(error);
    }

    /// The download stream ended: no download is in flight and none is shown.
    pub fn transfer_closed(&mut self)
        ensures
            *final(self) == (App { transfer_pending: false, transfer_repo: None, ..*old(self) }),
    {
        self.transfer_pending = false;
        self.transfer_repo = None;
    }
}

/// Marks the first search result for repository `repo_id` as downloaded into Mirmir's cache.
fn mark_downloaded(catalog: &mut Vec<CatalogModel>, repo_id: &str)
    ensures
        final(catalog)@.len() == old(catalog)@.len(),
        forall|i: int|
            0 <= i < old(catalog)@.len() ==> (#[trigger] final(catalog)@[i]) == (if first_catalog_with_id(
                old(catalog)@,
                repo_id@,
            ) == Some(i) {
                CatalogModel { downloaded: true, local_source: final(catalog)@[i].local_source, ..old(catalog)@[i] }
            } else {
                old(catalog)@[i]
            }),
        first_catalog_with_id(old(catalog)@, repo_id@) matches Some(i) ==> final(catalog)@[i].local_source@
            == "mirmir"@,
{
    let ghost first = first_catalog_with_id(catalog@, repo_id@);
    proof {
        if first is Some {
            let k = choose|k: int|
                0 <= k < catalog@.len() && (#[trigger] catalog@[k]).id@ == repo_id@ && forall|j: int|
                    0 <= j < k ==> catalog@[j].id@ != repo_id@;
            assert(first == Some(k));
            assert(0 <= k < catalog@.len());
        }
    }
    match catalog_model_index(catalog, repo_id) {
        Some(i) => {
            let ghost before = catalog@;
            let length = catalog.len();
            assert(i < length && first == Some(i as int));
            let mut model = catalog.remove(i);
            model.downloaded = true;
            model.local_source = "mirmir".to_owned();
            catalog.insert(i, model);
            proof {
                assert(catalog@ =~= before.update(i as int, model));
                assert(catalog@[i as int] == model);
            }
        },
        None => {
            assert(first is None);
        },
    }
}

} // verus!
