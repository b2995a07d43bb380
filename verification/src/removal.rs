//! Removing a downloaded model from its cache, after a confirmation.
use vstd::prelude::*;

use crate::app::{App, Command};
use crate::dialogs::RemoveDialog;
use crate::format::source_name;
use crate::input::KeyCode;
use crate::lists::{first_local_with_repo, searching, visible_catalog, visible_locals};
use crate::records::{CatalogModel, LocalModelInfo, RemoveModelResponse};
use crate::text::{decimal, decimal_chars, equals, join};

verus! {

/// The name shown for a cache: `MIRMIR` for Mirmir's own, `HF CACHE` for the shared one.
pub open spec fn source_chars(managed: bool) -> Seq<char> {
    if managed { "MIRMIR"@ } else { "HF CACHE"@ }
}

/// Whether a search result is stored in Mirmir's cache or in the Hugging Face cache.
pub open spec fn downloaded_source(source: Seq<char>) -> bool {
    source == "mirmir"@ || source == "hf_cache"@
}

/// The removal that the selected local model would get, or why there is none.
pub open spec fn local_removal(app: App, result: Result<RemoveDialog, String>) -> bool {
    if (app.local_selected as int) >= visible_locals(app).len() {
        result matches Err(e) && e@ == "no local model is selected"@
    } else {
        let model = visible_locals(app)[app.local_selected as int];
        if model.repo_id@.len() == 0 {
            result matches Err(e) && e@ == "this local path is not a Hugging Face cache entry"@
        } else {
            result matches Ok(d) && d.id == model.id && d.repo_id == model.repo_id && d.path
                == model.path && d.source@ == source_chars(model.managed)
        }
    }
}

/// The removal that the selected search result would get, or why there is none.
pub open spec fn catalog_removal(app: App, result: Result<RemoveDialog, String>) -> bool {
    if (app.catalog_selected as int) >= visible_catalog(app).len() {
        result matches Err(e) && e@ == "no search result is selected"@
    } else {
        let model = visible_catalog(app)[app.catalog_selected as int];
        if !downloaded_source(model.local_source@) {
            result matches Err(e) && e@ == "model is not downloaded"@
        } else {
            result matches Ok(d) && d.id == model.id && d.repo_id == model.id && d.path@ == (
            match first_local_with_repo(app.local_models@, model.id@) {
                Some(i) => app.local_models@[i].path@,
                None => "cache path will be resolved by the server"@,
            }) && d.source@ == source_chars(model.local_source@ == "mirmir"@)
        }
    }
}

/// The removal that the models screen's selection would get, or why there is none.
pub open spec fn removal_target(app: App, result: Result<RemoveDialog, String>) -> bool {
    if searching(app) {
        catalog_removal(app, result)
    } else {
        local_removal(app, result)
    }
}

/// Keeps the local models that are not stored for repository `repo_id`.
pub open spec fn other_repo(repo_id: Seq<char>) -> spec_fn(LocalModelInfo) -> bool {
    |model: LocalModelInfo| model.repo_id@ != repo_id
}

/// Position of the first search result for repository `repo_id`.
pub open spec fn first_catalog_with_id(catalog: Seq<CatalogModel>, repo_id: Seq<char>) -> Option<int> {
    if exists|i: int|
        0 <= i < catalog.len() && (#[trigger] catalog[i]).id@ == repo_id && forall|j: int|
            0 <= j < i ==> catalog[j].id@ != repo_id {
        Some(
            choose|i: int|
                0 <= i < catalog.len() && (#[trigger] catalog[i]).id@ == repo_id && forall|j: int|
                    0 <= j < i ==> catalog[j].id@ != repo_id,
        )
    } else {
        None
    }
}

/// `post` is `pre` after the removal of repository `repo_id`: its first search result is remote
/// and not downloaded, its local models are gone, and the local selection stays in the list;
/// nothing else changes.
pub open spec fn removal_applied(pre: App, repo_id: Seq<char>, post: App) -> bool {
    &&& removed_from_lists(pre, repo_id, post)
    &&& post == App {
        local_models: post.local_models,
        catalog: post.catalog,
        local_selected: post.local_selected,
        ..pre
    }
}

/// The lists of `post` are those of `pre` after the removal of repository `repo_id`.
pub open spec fn removed_from_lists(pre: App, repo_id: Seq<char>, post: App) -> bool {
    &&& post.local_models@ == pre.local_models@.filter(other_repo(repo_id))
    &&& post.catalog@.len() == pre.catalog@.len()
    &&& forall|i: int|
        0 <= i < pre.catalog@.len() ==> (#[trigger] post.catalog@[i]) == (if first_catalog_with_id(
            pre.catalog@,
            repo_id,
        ) == Some(i) {
            CatalogModel { downloaded: false, local_source: post.catalog@[i].local_source, ..pre.catalog@[i] }
        } else {
            pre.catalog@[i]
        })
    &&& first_catalog_with_id(pre.catalog@, repo_id) matches Some(i) ==> post.catalog@[i].local_source@
        == "remote"@
    &&& post.local_selected == (if (pre.local_selected as int) < post.local_models@.filter(
        crate::lists::local_filter(),
    ).len() {
        pre.local_selected as int
    } else if post.local_models@.filter(crate::lists::local_filter()).len() > 0 {
        post.local_models@.filter(crate::lists::local_filter()).len() - 1
    } else {
        0
    })
}

/// The models of `models` that are not stored for repository `repo_id`, in order.
pub fn without_repo(models: Vec<LocalModelInfo>, repo_id: &str) -> (kept: Vec<LocalModelInfo>)
    ensures
        kept@ == models@.filter(other_repo(repo_id@)),
{
    let ghost all = models@;
    let ghost pred = other_repo(repo_id@);
    let ghost mut consumed: Seq<LocalModelInfo> = Seq::empty();
    let mut rest = models;
    let mut kept: Vec<LocalModelInfo> = Vec::new();
    proof {
        assert(all =~= consumed + rest@);
    }
    while rest.len() > 0
        invariant
            all == consumed + rest@,
            pred == other_repo(repo_id@),
            kept@ == consumed.filter(pred),
        decreases rest@.len(),
    {
        let model = rest.remove(0);
        proof {
            reveal_with_fuel(Seq::filter, 1);
            assert(consumed.push(model).drop_last() =~= consumed);
        }
        let keep = !equals(model.repo_id.as_str(), repo_id);
        proof {
            consumed = consumed.push(model);
            assert(all =~= consumed + rest@);
        }
        if keep {
            kept.push(model);
        }
    }
    proof {
        assert(consumed =~= all);
    }
    kept
}

/// Position of the first search result for repository `repo_id`.
pub fn catalog_model_index(catalog: &Vec<CatalogModel>, repo_id: &str) -> (found: Option<usize>)
    ensures
        found == (match first_catalog_with_id(catalog@, repo_id@) {
            Some(i) => Some(i as usize),
            None => None,
        }),
{
    let mut i: usize = 0;
    while i < catalog.len()
        invariant
            i <= catalog@.len(),
            forall|j: int| 0 <= j < i ==> catalog@[j].id@ != repo_id@,
        decreases catalog@.len() - i,
    {
        if equals(catalog[i].id.as_str(), repo_id) {
            proof {
                let c = choose|c: int|
                    0 <= c < catalog@.len() && (#[trigger] catalog@[c]).id@ == repo_id@ && forall|j: int|
                        0 <= j < c ==> catalog@[j].id@ != repo_id@;
                assert(c == i);
            }
            return Some(i);
        }
        i += 1;
    }
    None
}

/// Marks the first search result for repository `repo_id` as remote and not downloaded.
pub fn mark_remote(catalog: &mut Vec<CatalogModel>, repo_id: &str)
    ensures
        final(catalog)@.len() == old(catalog)@.len(),
        forall|i: int|
            0 <= i < old(catalog)@.len() ==> (#[trigger] final(catalog)@[i]) == (if first_catalog_with_id(
                old(catalog)@,
                repo_id@,
            ) == Some(i) {
                CatalogModel { downloaded: false, local_source: final(catalog)@[i].local_source, ..old(catalog)@[i] }
            } else {
                old(catalog)@[i]
            }),
        first_catalog_with_id(old(catalog)@, repo_id@) matches Some(i) ==> final(catalog)@[i].local_source@
            == "remote"@,
{
    match catalog_model_index(catalog, repo_id) {
        Some(i) => {
            let ghost before = catalog@;
            let mut model = catalog.remove(i);
            model.downloaded = false;
            model.local_source = "remote".to_owned();
            catalog.insert(i, model);
            proof {
                assert(catalog@ =~= before.update(i as int, model));
            }
        },
        None => {},
    }
}

/// `selected`, or the last position of a list of `count` entries when it lies beyond.
pub fn clamp_selection(selected: usize, count: usize) -> (clamped: usize)
    ensures
        clamped == (if selected < count {
            selected as int
        } else if count > 0 {
            count - 1
        } else {
            0
        }),
{
    if selected < count {
        selected
    } else if count > 0 {
        count - 1
    } else {
        0
    }
}

/// `app` after `r`: the removal confirmation opens on the selection, or the action message
/// says why it cannot.
pub open spec fn remove_dialog_opened(pre: App, post: App) -> bool {
    &&& (pre.pending_removal is Some ==> post == (App { action_message: post.action_message, ..pre })
        && (post.action_message matches Some(m) && m@ == "another model removal is already active"@))
    &&& (pre.pending_removal is None ==> exists|target: Result<RemoveDialog, String>|
        removal_target(pre, target) && post == (match target {
            Ok(d) => App { remove_dialog: Some(d), ..pre },
            Err(e) => App { action_message: Some(e), ..pre },
        }))
}

/// `app` after a key on the removal confirmation.
pub open spec fn remove_key_handled(pre: App, code: KeyCode, post: App, command: Option<Command>) -> bool {
    &&& ((code == KeyCode::Esc || code == KeyCode::Char('n') || code == KeyCode::Char('N'))
        ==> command is None && post == (App { remove_dialog: None, ..pre }))
    &&& ((code == KeyCode::Enter || code == KeyCode::Char('y') || code == KeyCode::Char('Y'))
        ==> (match pre.remove_dialog {
        Some(target) => {
            &&& (command matches Some(Command::RemoveModel { repo_id }) && repo_id
                == target.repo_id)
            &&& post == (App {
                remove_dialog: None,
                pending_removal: Some(target),
                action_message: post.action_message,
                ..pre
            })
            &&& (post.action_message matches Some(m) && m@ == "removing "@
                + target.id@ + "…"@)
        },
        None => command is None && post == pre,
    }))
    &&& (!(code == KeyCode::Esc || code == KeyCode::Char('n') || code == KeyCode::Char('N')
        || code == KeyCode::Enter || code == KeyCode::Char('y') || code == KeyCode::Char('Y'))
        ==> command is None && post == pre)
}

impl App {
    /// Forgets the removed repository `repo_id` locally.
    pub fn apply_removal(&mut self, repo_id: &str)
        ensures
            removal_applied(*old(self), repo_id@, *final(self)),
    {
        mark_remote(&mut self.catalog, repo_id);
        let mut models: Vec<LocalModelInfo> = Vec::new();
        std::mem::swap(&mut models, &mut self.local_models);
        self.local_models = without_repo(models, repo_id);
        let count = self.local_model_count();
        self.local_selected = clamp_selection(self.local_selected, count);
    }

    /// The removal of the selected model, or why it cannot be removed.
    pub fn remove_target(&self) -> (target: Result<RemoveDialog, String>)
        ensures
            removal_target(*self, target),
    {
        if self.searching_models() {
            return self.catalog_remove_target();
        }
        let model = match self.selected_local_model() {
            Some(model) => model,
            None => return Err("no local model is selected".to_owned()),
        };
        if model.repo_id.as_str().is_empty() {
            return Err("this local path is not a Hugging Face cache entry".to_owned());
        }
        let source = source_name(model.managed);
        Ok(
            RemoveDialog {
                id: model.id.clone(),
                repo_id: model.repo_id.clone(),
                path: model.path.clone(),
                source,
            },
        )
    }

    fn catalog_remove_target(&self) -> (target: Result<RemoveDialog, String>)
        ensures
            catalog_removal(*self, target),
    {
        let model = match self.selected_catalog_model() {
            Some(model) => model,
            None => return Err("no search result is selected".to_owned()),
        };
        let source = model.local_source.as_str();
        let mirmir = equals(source, "mirmir");
        if !mirmir && !equals(source, "hf_cache") {
            return Err("model is not downloaded".to_owned());
        }
        let path = match self.local_catalog_model(model.id.as_str()) {
            Some(i) => self.local_models[i].path.clone(),
            None => "cache path will be resolved by the server".to_owned(),
        };
        Ok(
            RemoveDialog {
                id: model.id.clone(),
                repo_id: model.id.clone(),
                path,
                source: source_name(mirmir),
            },
        )
    }

    /// `r` opens the removal confirmation, unless a removal is running or nothing can be
    /// removed, which the action message then says.
    pub fn open_remove_dialog(&mut self)
        ensures
            remove_dialog_opened(*old(self), *final(self)),
    {
        if self.pending_removal.is_some() {
            self.action_message = Some("another model removal is already active".to_owned());
            return;
        }
        let target = self.remove_target();
        match target {
            Ok(dialog) => self.remove_dialog = Some(dialog),
            Err(message) => self.action_message = Some(message),
        }
    }

    /// Answers the removal confirmation: Esc or `n` closes it, Enter or `y` starts the removal.
    pub fn handle_remove_key(&mut self, code: KeyCode) -> (command: Option<Command>)
        ensures
            remove_key_handled(*old(self), code, *final(self), command),
    {
        let (close, confirm) = match code {
            KeyCode::Esc => (true, false),
            KeyCode::Enter => (false, true),
            KeyCode::Char(c) => (c == 'n' || c == 'N', c == 'y' || c == 'Y'),
            _ => (false, false),
        };
        if close {
            self.remove_dialog = None;
            return None;
        }
        if !confirm {
            return None;
        }
        match self.remove_dialog.take() {
            Some(target) => Some(self.start_removal(target)),
            None => None,
        }
    }

    fn start_removal(&mut self, target: RemoveDialog) -> (command: Command)
        ensures
            command matches Command::RemoveModel { repo_id } && repo_id == target.repo_id,
            *final(self) == (App {
                pending_removal: Some(target),
                action_message: final(self).action_message,
                ..*old(self)
            }),
            final(self).action_message matches Some(m) && m@ == "removing "@ + target.id@ + "…"@,
    {
        let message = join(join("removing ", target.id.as_str()).as_str(), "…");
        let command = Command::RemoveModel { repo_id: target.repo_id.clone() };
        self.action_message = Some(message);
        self.pending_removal = Some(target);
        command
    }

    /// Takes the end of a removal: on success the model leaves the local list and its search
    /// result becomes remote; the message says what happened.
    pub fn finish_removal(&mut self, result: Result<RemoveModelResponse, String>)
        ensures
            final(self).pending_removal is None,
            result matches Err(e) ==> *final(self) == (App {
                pending_removal: None,
                action_message: Some(e),
                ..*old(self)
            }),
            result matches Ok(r) ==> old(self).pending_removal is None ==> *final(self) == (App {
                pending_removal: None,
                ..*old(self)
            }),
            result matches Ok(r) ==> old(self).pending_removal is Some ==> !r.removed ==> *final(self) == (App {
                pending_removal: None,
                action_message: final(self).action_message,
                ..*old(self)
            }) && (final(self).action_message matches Some(m) && m@
                == "model was not found in a local cache"@),
            result matches Ok(r) ==> old(self).pending_removal is Some ==> r.removed ==> {
                &&& removed_from_lists(*old(self), old(self).pending_removal->0.repo_id@, *final(self))
                &&& *final(self) == (App {
                    local_models: final(self).local_models,
                    catalog: final(self).catalog,
                    local_selected: final(self).local_selected,
                    pending_removal: None,
                    action_message: final(self).action_message,
                    ..*old(self)
                })
                &&& (final(self).action_message matches Some(m) && m@
                    == "removed model; freed "@ + decimal_chars(r.freed_bytes as nat) + " bytes"@)
            },
    {
        let target = self.pending_removal.take();
        match result {
            Err(error) => self.action_message = Some(error),
            Ok(response) => {
                match target {
                    None => {},
                    Some(target) => {
                        if !response.removed {
                            self.action_message = Some(
                                "model was not found in a local cache".to_owned(),
                            );
                        } else {
                            self.apply_removal(target.repo_id.as_str());
                            let freed = decimal(response.freed_bytes);
                            self.action_message = Some(
                                join(
                                    join("removed model; freed ", freed.as_str()).as_str(),
                                    " bytes",
                                ),
                            );
                        }
                    },
                }
            },
        }
    }
}

} // verus!
