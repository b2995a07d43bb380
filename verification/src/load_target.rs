//! Which model a load starts from: the selected local model or downloaded search result.
use vstd::prelude::*;

use crate::app::App;
use crate::dialogs::LoadTarget;
use crate::lists::{first_local_with_repo, searching, visible_catalog, visible_locals};
use crate::records::LocalModelInfo;
use crate::removal::downloaded_source;
use crate::text::{equals, join};

verus! {

/// The selector that names a local model to the runtime: its selector, or its id when it has none.
pub open spec fn selector_chars(model: LocalModelInfo) -> Seq<char> {
    if model.selector@.len() == 0 { model.id@ } else { model.selector@ }
}

/// The selector that names a local model to the runtime.
pub fn selector(model: &LocalModelInfo) -> (s: String)
    ensures
        s@ == selector_chars(*model),
{
    if model.selector.as_str().is_empty() {
        model.id.clone()
    } else {
        model.selector.clone()
    }
}

/// The load target of a local model.
pub open spec fn local_target(model: LocalModelInfo, target: LoadTarget) -> bool {
    &&& target.selector@ == selector_chars(model)
    &&& target.config_id == model.id
    &&& target.repo_id == model.repo_id
    &&& target.revision == model.revision
    &&& target.commit == model.commit
}

/// The load target of a local model.
pub fn local_load_target(model: &LocalModelInfo) -> (target: LoadTarget)
    ensures
        local_target(*model, target),
{
    LoadTarget {
        selector: selector(model),
        config_id: model.id.clone(),
        repo_id: model.repo_id.clone(),
        revision: model.revision.clone(),
        commit: model.commit.clone(),
    }
}

/// Why a local model cannot be loaded, if it cannot: it is missing or already loaded, or the
/// runtime gave a reason.
pub open spec fn local_refusal(model: LocalModelInfo) -> Option<Seq<char>> {
    if model.state@ == "missing"@ || model.state@ == "ready"@ {
        Some("model is already "@ + model.state@)
    } else if !model.loadable {
        Some(model.load_unavailable_reason@)
    } else {
        None
    }
}

/// What a load request on the models screen starts from.
pub enum TargetDecision {
    /// Nothing is selected.
    Nothing,
    /// The selection cannot be loaded, for this reason.
    Refuse(Seq<char>),
    /// The selection is the local model at this position of `local_models`.
    Local(int),
    /// The selection is a cached search result with no local entry: its repository.
    Cached(Seq<char>),
}

/// What the selection of the models screen would load.
pub open spec fn target_decision(app: App) -> TargetDecision {
    if searching(app) {
        if (app.catalog_selected as int) >= visible_catalog(app).len() {
            TargetDecision::Nothing
        } else {
            let model = visible_catalog(app)[app.catalog_selected as int];
            if !downloaded_source(model.local_source@) {
                TargetDecision::Refuse("download the model before loading it"@)
            } else {
                match first_local_with_repo(app.local_models@, model.id@) {
                    Some(i) => match local_refusal(app.local_models@[i]) {
                        Some(m) => TargetDecision::Refuse(m),
                        None => TargetDecision::Local(i),
                    },
                    None => TargetDecision::Cached(model.id@),
                }
            }
        }
    } else if (app.local_selected as int) >= visible_locals(app).len() {
        TargetDecision::Nothing
    } else {
        let model = visible_locals(app)[app.local_selected as int];
        match local_refusal(model) {
            Some(m) => TargetDecision::Refuse(m),
            None => TargetDecision::Local(-1),
        }
    }
}

/// Whether `target` is what `decision` loads; `key` is the configuration key that the
/// runtime derives from a cached repository's name, when it derives one.
pub open spec fn target_of(app: App, decision: TargetDecision, key: Option<String>, target: LoadTarget) -> bool {
    match decision {
        TargetDecision::Local(i) => if i >= 0 {
            local_target(app.local_models@[i], target)
        } else {
            local_target(visible_locals(app)[app.local_selected as int], target)
        },
        TargetDecision::Cached(repo) => {
            &&& target.selector@ == repo
            &&& target.config_id@ == (match key {
                Some(k) => k@,
                None => repo,
            })
            &&& target.repo_id@ == repo
            &&& target.revision@.len() == 0
            &&& target.commit@.len() == 0
        },
        _ => false,
    }
}

/// Why `model` cannot be loaded, if it cannot.
fn refusal(model: &LocalModelInfo) -> (message: Option<String>)
    ensures
        match local_refusal(*model) {
            Some(m) => message matches Some(s) && s@ == m,
            None => message is None,
        },
{
    if equals(model.state.as_str(), "missing") || equals(model.state.as_str(), "ready") {
        Some(join("model is already ", model.state.as_str()))
    } else if !model.loadable {
        Some(model.load_unavailable_reason.clone())
    } else {
        None
    }
}

impl App {
    /// The model that a load on the models screen would start, or `Err` with the reason it
    /// cannot, or `Ok(None)` when nothing is selected. `key` is the runtime's configuration key
    /// for the selected search result's repository, when it has one.
    pub fn resolve_load_target(&self, key: Option<String>) -> (target: Result<Option<LoadTarget>, String>)
        ensures
            match target_decision(*self) {
                TargetDecision::Nothing => target matches Ok(None),
                TargetDecision::Refuse(m) => target matches Err(e) && e@ == m,
                decision => target matches Ok(Some(t)) && target_of(*self, decision, key, t),
            },
    {
        if self.searching_models() {
            let model = match self.selected_catalog_model() {
                Some(model) => model,
                None => return Ok(None),
            };
            let source = model.local_source.as_str();
            if !equals(source, "mirmir") && !equals(source, "hf_cache") {
                return Err("download the model before loading it".to_owned());
            }
            return match self.local_catalog_model(model.id.as_str()) {
                Some(i) => match refusal(&self.local_models[i]) {
                    Some(message) => Err(message),
                    None => Ok(Some(local_load_target(&self.local_models[i]))),
                },
                None => {
                    let config_id = match key {
                        Some(k) => k,
                        None => model.id.clone(),
                    };
                    Ok(
                        Some(
                            LoadTarget {
                                selector: model.id.clone(),
                                config_id,
                                repo_id: model.id.clone(),
                                revision: String::new(),
                                commit: String::new(),
                            },
                        ),
                    )
                },
            };
        }
        let model = match self.selected_local_model() {
            Some(model) => model,
            None => return Ok(None),
        };
        match refusal(model) {
            Some(message) => Err(message),
            None => Ok(Some(local_load_target(model))),
        }
    }

    /// The model that a load would start; when it cannot be loaded the action message says
    /// why.
    pub fn load_target(&mut self, key: Option<String>) -> (target: Option<LoadTarget>)
        ensures
            match target_decision(*old(self)) {
                TargetDecision::Nothing => target is None && *final(self) == *old(self),
                TargetDecision::Refuse(m) => target is None && *final(self) == (App {
                    action_message: final(self).action_message,
                    ..*old(self)
                }) && (final(self).action_message matches Some(s) && s@ == m),
                decision => *final(self) == *old(self) && (target matches Some(t) && target_of(
                    *old(self),
                    decision,
                    key,
                    t,
                )),
            },
    {
        match self.resolve_load_target(key) {
            Ok(target) => target,
            Err(message) => {
                self.action_message = Some(message);
                None
            },
        }
    }
}


/// A load never starts from a local model that is already loaded or missing, nor from one
/// that the runtime cannot load; the selected local model that is already loaded or missing is
/// refused with the message that says so.
pub proof fn lemma_loaded_models_are_not_targets(app: App)
    ensures
        target_decision(app) matches TargetDecision::Local(i) ==> {
            let model = if i >= 0 {
                app.local_models@[i]
            } else {
                visible_locals(app)[app.local_selected as int]
            };
            &&& model.state@ != "ready"@
            &&& model.state@ != "missing"@
            &&& model.loadable
        },
        ({
            let model = visible_locals(app)[app.local_selected as int];
            !searching(app) && (app.local_selected as int) < visible_locals(app).len() && (
            model.state@ == "ready"@ || model.state@ == "missing"@) ==> target_decision(app)
                == TargetDecision::Refuse("model is already "@ + model.state@)
        }),
{
}

} // verus!
