//! The models screen: its keys, the action on the selected model, unloading, cancelling its
//! operation, and typing the search.
use vstd::prelude::*;

use crate::activity::cancellable_state;
use crate::app::{App, Command};
use crate::input::KeyCode;
use crate::lists::{first_local_with_repo, lemma_filter_prefix_step, searching, visible_catalog, visible_locals};
use crate::load::load_dialog_opened;
use crate::load_target::{selector, selector_chars};
use crate::records::{ActivityEvent, LocalModelInfo, ModelInfo};
use crate::screen::CatalogFilter;
use crate::removal::remove_dialog_opened;
use crate::search::{search_queued, SEARCH_LIMIT};
use crate::text::{equals, join, pop_char, push_char};
use crate::transfer::pull_started;

verus! {

/// What Enter does to the selected model.
#[derive(Debug, Clone, Copy, PartialEq, Eq, Structural)]
pub enum ModelAction {
    Download,
    Load,
    Unload,
    Nothing,
}

/// What Enter does to the selected model: a remote search result downloads, a ready model
/// unloads, an available one loads.
pub open spec fn model_action(app: App) -> ModelAction {
    if searching(app) {
        if (app.catalog_selected as int) >= visible_catalog(app).len() {
            ModelAction::Nothing
        } else {
            let model = visible_catalog(app)[app.catalog_selected as int];
            if model.local_source@ == "remote"@ {
                ModelAction::Download
            } else if first_local_with_repo(app.local_models@, model.id@) matches Some(i)
                && app.local_models@[i].state@ == "ready"@ {
                ModelAction::Unload
            } else {
                ModelAction::Load
            }
        }
    } else if (app.local_selected as int) >= visible_locals(app).len() {
        ModelAction::Nothing
    } else {
        let state = visible_locals(app)[app.local_selected as int].state@;
        if state == "ready"@ {
            ModelAction::Unload
        } else if state == "available"@ {
            ModelAction::Load
        } else {
            ModelAction::Nothing
        }
    }
}

/// The selector that unloads the selection: a search result's local model, or its id when it
/// has none; or the selected local model.
pub open spec fn unload_selector(app: App) -> Option<Seq<char>> {
    if searching(app) {
        if (app.catalog_selected as int) >= visible_catalog(app).len() {
            None
        } else {
            let model = visible_catalog(app)[app.catalog_selected as int];
            match first_local_with_repo(app.local_models@, model.id@) {
                Some(i) => Some(selector_chars(app.local_models@[i])),
                None => Some(model.id@),
            }
        }
    } else if (app.local_selected as int) >= visible_locals(app).len() {
        None
    } else {
        Some(selector_chars(visible_locals(app)[app.local_selected as int]))
    }
}

/// `app` after `u`: the unload of the selection is asked for.
pub open spec fn unload_asked(pre: App, post: App, command: Option<Command>) -> bool {
    &&& post == pre
    &&& match unload_selector(pre) {
        Some(s) => command matches Some(Command::UnloadModel { selector }) && selector@ == s,
        None => command is None,
    }
}

/// `app` after Enter on the models screen; `key` is the runtime's configuration key for the
/// selected search result.
pub open spec fn model_activated(pre: App, key: Option<String>, post: App, command: Option<Command>) -> bool {
    match model_action(pre) {
        ModelAction::Download => pull_started(pre, post, command),
        ModelAction::Load => load_dialog_opened(pre, key, post, command),
        ModelAction::Unload => unload_asked(pre, post, command),
        ModelAction::Nothing => command is None && post == pre,
    }
}

/// Whether an operation on a model may be cancelled from the models screen.
pub open spec fn model_operation_cancellable(event: ActivityEvent, targets: Seq<Seq<char>>) -> bool {
    &&& targets.contains(event.target@)
    &&& event.cancellable
    &&& (event.state@ == "queued"@ || event.state@ == "running"@)
}

/// Position of the first operation on one of `targets` that may be cancelled.
pub open spec fn first_cancellable(events: Seq<ActivityEvent>, targets: Seq<Seq<char>>) -> Option<int> {
    if exists|i: int|
        0 <= i < events.len() && model_operation_cancellable(#[trigger] events[i], targets)
            && forall|j: int| 0 <= j < i ==> !model_operation_cancellable(events[j], targets) {
        Some(
            choose|i: int|
                0 <= i < events.len() && model_operation_cancellable(#[trigger] events[i], targets)
                    && forall|j: int| 0 <= j < i ==> !model_operation_cancellable(events[j], targets),
        )
    } else {
        None
    }
}

/// The operation that `x` cancels: the first cancellable one on the selected local model's id
/// or repository.
pub open spec fn model_operation(app: App) -> Option<int> {
    if (app.local_selected as int) >= visible_locals(app).len() {
        None
    } else {
        let model = visible_locals(app)[app.local_selected as int];
        first_cancellable(app.activities@, seq![model.id@, model.repo_id@])
    }
}

/// `app` after the unload answer for `selector`: the model leaves the loaded list under its
/// configuration key `key` (the selector when there is none), the first local model with that
/// id or selector becomes available, and the action message says what happened.
pub open spec fn unload_applied(pre: App, result: Result<bool, String>, selector: Seq<char>, key: Option<String>, post: App) -> bool {
    match result {
        Err(e) => post == App { action_message: Some(e), ..pre },
        Ok(false) => post == (App { action_message: post.action_message, ..pre }) && (
        post.action_message matches Some(m) && m@ == "model was not loaded"@),
        Ok(true) => {
            let id = match key {
                Some(k) => k@,
                None => selector,
            };
            &&& post == App {
                models: post.models,
                local_models: post.local_models,
                action_message: post.action_message,
                ..pre
            }
            &&& post.models@ == pre.models@.filter(|m: ModelInfo| m.id@ != id)
            &&& post.local_models@.len() == pre.local_models@.len()
            &&& forall|i: int|
                0 <= i < pre.local_models@.len() ==> (#[trigger] post.local_models@[i]) == (
                if i == first_unloaded(pre.local_models@, id, selector) {
                    LocalModelInfo { state: post.local_models@[i].state, ..pre.local_models@[i] }
                } else {
                    pre.local_models@[i]
                })
            &&& first_unloaded(pre.local_models@, id, selector) >= 0 ==> post.local_models@[first_unloaded(
                pre.local_models@,
                id,
                selector,
            )].state@ == "available"@
            &&& post.action_message matches Some(m) && m@ == "unloaded "@ + selector
        },
    }
}

/// Whether local model `model` is the one that an unload of `selector` under `id` names.
pub open spec fn names_unloaded(model: LocalModelInfo, id: Seq<char>, selector: Seq<char>) -> bool {
    model.id@ == id || model.selector@ == selector
}

/// Position of the first local model that an unload names, or -1.
pub open spec fn first_unloaded(models: Seq<LocalModelInfo>, id: Seq<char>, selector: Seq<char>) -> int {
    if exists|i: int|
        0 <= i < models.len() && names_unloaded(#[trigger] models[i], id, selector) && forall|j: int|
            0 <= j < i ==> !names_unloaded(models[j], id, selector) {
        choose|i: int|
            0 <= i < models.len() && names_unloaded(#[trigger] models[i], id, selector) && forall|j: int|
                0 <= j < i ==> !names_unloaded(models[j], id, selector)
    } else {
        -1
    }
}

/// `models` without those whose id is `id`.
pub fn without_model(models: &Vec<ModelInfo>, id: &str) -> (kept: Vec<ModelInfo>)
    ensures
        kept@ == models@.filter(|m: ModelInfo| m.id@ != id@),
{
    let ghost keep = |m: ModelInfo| m.id@ != id@;
    let mut kept: Vec<ModelInfo> = Vec::new();
    let mut i: usize = 0;
    while i < models.len()
        invariant
            i <= models@.len(),
            keep == (|m: ModelInfo| m.id@ != id@),
            kept@ == models@.take(i as int).filter(keep),
        decreases models@.len() - i,
    {
        proof {
            lemma_filter_prefix_step(models@, keep, i as int);
        }
        if !equals(models[i].id.as_str(), id) {
            kept.push(models[i].copied());
        }
        i += 1;
    }
    proof {
        assert(models@.take(i as int) =~= models@);
    }
    kept
}

/// Marks the first local model that an unload of `selector` under `id` names as available.
fn mark_available(models: &mut Vec<LocalModelInfo>, id: &str, selector: &str)
    ensures
        final(models)@.len() == old(models)@.len(),
        forall|i: int|
            0 <= i < old(models)@.len() ==> (#[trigger] final(models)@[i]) == (if i == first_unloaded(
                old(models)@,
                id@,
                selector@,
            ) {
                LocalModelInfo { state: final(models)@[i].state, ..old(models)@[i] }
            } else {
                old(models)@[i]
            }),
        first_unloaded(old(models)@, id@, selector@) >= 0 ==> final(models)@[first_unloaded(
            old(models)@,
            id@,
            selector@,
        )].state@ == "available"@,
{
    let ghost pre = models@;
    let mut i: usize = 0;
    while i < models.len()
        invariant
            models@ == pre,
            pre == old(models)@,
            i <= pre.len(),
            forall|j: int| 0 <= j < i ==> !names_unloaded(pre[j], id@, selector@),
        decreases pre.len() - i,
    {
        if equals(models[i].id.as_str(), id) || equals(models[i].selector.as_str(), selector) {
            proof {
                assert(names_unloaded(pre[i as int], id@, selector@));
                let k = choose|k: int|
                    0 <= k < pre.len() && names_unloaded(#[trigger] pre[k], id@, selector@) && forall|j: int|
                        0 <= j < k ==> !names_unloaded(pre[j], id@, selector@);
                assert(k == i);
            }
            let mut model = models.remove(i);
            model.state = "available".to_owned();
            models.insert(i, model);
            proof {
                assert(models@ =~= pre.update(i as int, model));
                assert(first_unloaded(pre, id@, selector@) == i);
            }
            return;
        }
        i += 1;
    }
    proof {
        assert(first_unloaded(pre, id@, selector@) == -1);
    }
}

/// `app` after `x` on the models screen: the first cancellable operation on the selected
/// local model is asked to cancel, or the action message says there is none.
pub open spec fn model_cancel_asked(pre: App, post: App, command: Option<Command>) -> bool {
    match model_operation(pre) {
        Some(i) => command == Some(
            Command::CancelOperation { operation_id: pre.activities@[i].operation_id },
        ) && post == pre,
        None => command is None && post == (App { action_message: post.action_message, ..pre })
            && (post.action_message matches Some(m) && m@
            == "selected model has no cancellable operation"@),
    }
}

/// `app` after a key on the models screen; `key` is the runtime's configuration key for the
/// selected search result. `/` starts typing a search, `i` shows or hides incompatible
/// results, Enter acts on the selection, `d` downloads, `x` cancels its operation, `r` asks
/// to remove it, `l` to load it and `u` to unload it.
#[verifier::opaque]
pub open spec fn models_key_handled(pre: App, code: KeyCode, key: Option<String>, post: App, command: Option<Command>) -> bool {
    match code {
        KeyCode::Char('/') => command is None && post == App { editing_search: true, ..pre },
        KeyCode::Char('i') | KeyCode::Char('I') => command is None && post == App {
            catalog_filter: if pre.catalog_filter == CatalogFilter::Compatible {
                CatalogFilter::All
            } else {
                CatalogFilter::Compatible
            },
            catalog_selected: 0,
            ..pre
        },
        KeyCode::Enter => model_activated(pre, key, post, command),
        KeyCode::Char('d') => pull_started(pre, post, command),
        KeyCode::Char('x') | KeyCode::Char('X') => model_cancel_asked(pre, post, command),
        KeyCode::Char('r') => command is None && remove_dialog_opened(pre, post),
        KeyCode::Char('l') => load_dialog_opened(pre, key, post, command),
        KeyCode::Char('u') => unload_asked(pre, post, command),
        _ => command is None && post == pre,
    }
}

/// `mid` is `pre` with the query `query` and no search results.
pub open spec fn results_reset(pre: App, query: Seq<char>, mid: App) -> bool {
    &&& mid == App {
        search_query: mid.search_query,
        catalog: mid.catalog,
        catalog_selected: 0,
        catalog_error: None,
        catalog_next_cursor: None,
        ..pre
    }
    &&& mid.search_query@ == query
    &&& mid.catalog@.len() == 0
}

/// `app` after the search was closed: no query, no results, no search in flight.
pub open spec fn search_closed_by_user(pre: App, post: App) -> bool {
    &&& post == App {
        editing_search: false,
        search_query: post.search_query,
        catalog: post.catalog,
        catalog_selected: 0,
        catalog_error: None,
        catalog_next_cursor: None,
        catalog_search_pending: false,
        ..pre
    }
    &&& post.search_query@.len() == 0
    &&& post.catalog@.len() == 0
}

/// `app` after a key while the search is typed; `key` is the runtime's configuration key for
/// the selected search result. Esc closes the search; Enter searches when there are no
/// results and acts on the selected one otherwise; typing and Backspace change the query,
/// drop the results and search again.
#[verifier::opaque]
pub open spec fn search_key_handled(pre: App, code: KeyCode, key: Option<String>, post: App, command: Option<Command>) -> bool {
    match code {
        KeyCode::Esc => command is None && search_closed_by_user(pre, post),
        KeyCode::Enter => if pre.catalog@.len() == 0 {
            search_queued(pre, false, post, command)
        } else {
            model_activated(pre, key, post, command)
        },
        KeyCode::Backspace => exists|mid: App|
            results_reset(
                pre,
                if pre.search_query@.len() > 0 {
                    pre.search_query@.drop_last()
                } else {
                    pre.search_query@
                },
                mid,
            ) && #[trigger] search_queued(mid, false, post, command),
        KeyCode::Char(c) => exists|mid: App|
            results_reset(pre, pre.search_query@.push(c), mid) && #[trigger] search_queued(
                mid,
                false,
                post,
                command,
            ),
        _ => command is None && post == pre,
    }
}

/// `app` after the selection moved on the models screen: when the selection nears the end of
/// the search results and more can be had, the next page is asked for.
pub open spec fn more_results_asked(pre: App, post: App, command: Option<Command>) -> bool {
    if searching(pre) && !pre.catalog_search_pending && pre.catalog_next_cursor is Some
        && pre.catalog_selected + 4 >= visible_catalog(pre).len() {
        search_queued(pre, true, post, command)
    } else {
        command is None && post == pre
    }
}

/// Position of the first operation on `id` or `repo_id` that may be cancelled.
fn cancellable_position(events: &Vec<ActivityEvent>, id: &str, repo_id: &str) -> (found: Option<usize>)
    ensures
        match found {
            Some(i) => first_cancellable(events@, seq![id@, repo_id@]) == Some(i as int),
            None => first_cancellable(events@, seq![id@, repo_id@]) is None,
        },
{
    let ghost targets = seq![id@, repo_id@];
    let mut i: usize = 0;
    while i < events.len()
        invariant
            i <= events@.len(),
            targets == seq![id@, repo_id@],
            forall|j: int| 0 <= j < i ==> !model_operation_cancellable(events@[j], targets),
        decreases events@.len() - i,
    {
        let event = &events[i];
        let named = equals(event.target.as_str(), id) || equals(event.target.as_str(), repo_id);
        let state = event.state.as_str();
        let active = equals(state, "queued") || equals(state, "running");
        proof {
            assert(targets.contains(event.target@) == (event.target@ == id@ || event.target@
                == repo_id@)) by {
                if event.target@ == repo_id@ {
                    assert(targets[1] == event.target@);
                }
                if event.target@ == id@ {
                    assert(targets[0] == event.target@);
                }
            }
        }
        if named && event.cancellable && active {
            proof {
                assert(model_operation_cancellable(events@[i as int], targets));
                let k = choose|k: int|
                    0 <= k < events@.len() && model_operation_cancellable(#[trigger] events@[k], targets)
                        && forall|j: int| 0 <= j < k ==> !model_operation_cancellable(events@[j], targets);
                assert(k == i);
            }
            return Some(i);
        }
        i += 1;
    }
    None
}

impl App {
    /// What Enter does to the selected model.
    pub fn selected_model_action(&self) -> (action: ModelAction)
        ensures
            action == model_action(*self),
    {
        if self.searching_models() {
            return match self.selected_catalog_model() {
                None => ModelAction::Nothing,
                Some(model) => if equals(model.local_source.as_str(), "remote") {
                    ModelAction::Download
                } else {
                    match self.local_catalog_model(model.id.as_str()) {
                        Some(i) => if equals(self.local_models[i].state.as_str(), "ready") {
                            ModelAction::Unload
                        } else {
                            ModelAction::Load
                        },
                        None => ModelAction::Load,
                    }
                },
            };
        }
        match self.selected_local_model() {
            None => ModelAction::Nothing,
            Some(model) => {
                let state = model.state.as_str();
                if equals(state, "ready") {
                    ModelAction::Unload
                } else if equals(state, "available") {
                    ModelAction::Load
                } else {
                    ModelAction::Nothing
                }
            },
        }
    }

    /// `u` asks to unload the selected model.
    pub fn unload_selected(&self) -> (command: Option<Command>)
        ensures
            unload_asked(*self, *self, command),
    {
        let name = if self.searching_models() {
            match self.selected_catalog_model() {
                None => None,
                Some(model) => match self.local_catalog_model(model.id.as_str()) {
                    Some(i) => Some(selector(&self.local_models[i])),
                    None => Some(model.id.clone()),
                },
            }
        } else {
            match self.selected_local_model() {
                None => None,
                Some(model) => Some(selector(model)),
            }
        };
        match name {
            Some(selector) => Some(Command::UnloadModel { selector }),
            None => None,
        }
    }

    /// Enter on the models screen downloads, loads or unloads the selected model; `key` is the
    /// runtime's configuration key for the selected search result.
    pub fn activate_selected_model(&mut self, key: Option<String>) -> (command: Option<Command>)
        ensures
            model_activated(*old(self), key, *final(self), command),
    {
        match self.selected_model_action() {
            ModelAction::Download => self.start_pull(),
            ModelAction::Load => self.open_load_dialog(key),
            ModelAction::Unload => self.unload_selected(),
            ModelAction::Nothing => None,
        }
    }

    /// Takes the answer to an unload of `selector`; `key` is the configuration key that the
    /// runtime derives from `selector`, when it derives one.
    pub fn apply_unload(&mut self, result: Result<bool, String>, selector: &str, key: Option<String>)
        ensures
            unload_applied(*old(self), result, selector@, key, *final(self)),
    {
        match result {
            Err(error) => self.action_message = Some(error),
            Ok(false) => self.action_message = Some("model was not loaded".to_owned()),
            Ok(true) => {
                let id = match key {
                    Some(k) => k,
                    None => selector.to_owned(),
                };
                let ghost unloaded = id@;
                self.models = without_model(&self.models, id.as_str());
                mark_available(&mut self.local_models, id.as_str(), selector);
                self.action_message = Some(join("unloaded ", selector));
                proof {
                    assert((|m: ModelInfo| m.id@ != id@) == (|m: ModelInfo| m.id@ != unloaded));
                }
            },
        }
    }

    /// The operation that `x` on the models screen cancels.
    pub fn selected_model_operation(&self) -> (found: Option<usize>)
        ensures
            match found {
                Some(i) => model_operation(*self) == Some(i as int),
                None => model_operation(*self) is None,
            },
    {
        match self.selected_local_model() {
            None => None,
            Some(model) => cancellable_position(&self.activities, model.id.as_str(), model.repo_id.as_str()),
        }
    }

    /// `x` asks to cancel the first cancellable operation on the selected local model, or the
    /// action message says that it has none.
    pub fn cancel_selected_model_operation(&mut self) -> (command: Option<Command>)
        ensures
            model_cancel_asked(*old(self), *final(self), command),
    {
        let found = self.selected_model_operation();
        match found {
            Some(i) => Some(
                Command::CancelOperation { operation_id: self.activities[i].operation_id.clone() },
            ),
            None => {
                self.action_message = Some("selected model has no cancellable operation".to_owned());
                None
            },
        }
    }

    /// Takes the answer to a cancellation asked for on the models screen: whether it was
    /// accepted and the operation's state, or the error.
    pub fn apply_model_cancel(&mut self, result: Result<(bool, String), String>)
        ensures
            *final(self) == (App { action_message: final(self).action_message, ..*old(self) }),
            final(self).action_message matches Some(m) && m@ == match result {
                Ok((accepted, state)) => if accepted {
                    "cancellation requested"@
                } else {
                    "cancellation rejected: "@ + state@
                },
                Err(e) => e@,
            },
    {
        let message = match result {
            Ok((accepted, state)) => if accepted {
                "cancellation requested".to_owned()
            } else {
                join("cancellation rejected: ", state.as_str())
            },
            Err(error) => error,
        };
        self.action_message = Some(message);
    }

    /// A key on the models screen; `key` is the runtime's configuration key for the selected
    /// search result.
    pub fn handle_models_key(&mut self, code: KeyCode, key: Option<String>) -> (command: Option<Command>)
        ensures
            models_key_handled(*old(self), code, key, *final(self), command),
    {
        reveal(models_key_handled);
        match code {
            KeyCode::Enter => self.activate_selected_model(key),
            KeyCode::Char(c) => if c == '/' {
                self.editing_search = true;
                None
            } else if c == 'i' || c == 'I' {
                self.toggle_incompatible_models();
                None
            } else if c == 'd' {
                self.start_pull()
            } else if c == 'x' || c == 'X' {
                self.cancel_selected_model_operation()
            } else if c == 'r' {
                self.open_remove_dialog();
                None
            } else if c == 'l' {
                self.open_load_dialog(key)
            } else if c == 'u' {
                self.unload_selected()
            } else {
                None
            },
            _ => None,
        }
    }

    /// Closes the search: the query, its results and its request are dropped.
    pub fn close_search(&mut self)
        ensures
            search_closed_by_user(*old(self), *final(self)),
    {
        self.editing_search = false;
        self.search_query = String::new();
        self.reset_search_results();
        self.catalog_search_pending = false;
    }

    /// A key while the search is typed; `key` is the runtime's configuration key for the
    /// selected search result.
    pub fn handle_search_key(&mut self, code: KeyCode, key: Option<String>) -> (command: Option<Command>)
        ensures
            search_key_handled(*old(self), code, key, *final(self), command),
    {
        reveal(search_key_handled);
        match code {
            KeyCode::Esc => {
                self.close_search();
                None
            },
            KeyCode::Enter => if self.catalog.len() == 0 {
                self.queue_search(false)
            } else {
                self.activate_selected_model(key)
            },
            KeyCode::Backspace => {
                pop_char(&mut self.search_query);
                self.reset_search_results();
                let ghost mid = *self;
                let command = self.queue_search(false);
                proof {
                    assert(search_queued(mid, false, *self, command));
                }
                command
            },
            KeyCode::Char(c) => {
                push_char(&mut self.search_query, c);
                self.reset_search_results();
                let ghost mid = *self;
                let command = self.queue_search(false);
                proof {
                    assert(search_queued(mid, false, *self, command));
                }
                command
            },
            _ => None,
        }
    }

    /// Asks for the next page of search results when the selection nears the end of the list
    /// and more can be had.
    pub fn load_more_if_needed(&mut self) -> (command: Option<Command>)
        ensures
            more_results_asked(*old(self), *final(self), command),
    {
        if self.searching_models() && !self.catalog_search_pending && self.catalog_next_cursor.is_some()
            && self.catalog_selected.saturating_add(4) >= self.visible_catalog_count() {
            self.queue_search(true)
        } else {
            None
        }
    }
}

} // verus!
