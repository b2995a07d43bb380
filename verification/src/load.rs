//! The load dialog: inspecting a model, editing its settings, loading it, and its progress.
use vstd::prelude::*;

use crate::app::{App, Command};
use crate::dialogs::{FIELD_COUNT, LoadDialog, LoadStatus, LoadTarget};
use crate::input::KeyCode;
use crate::load_target::{selector_chars, target_decision, target_of, TargetDecision};
use crate::records::{
    GenerationSettings, InspectModelResponse, LoadModelRequest, LocalModelInfo, ModelInfo,
    ModelLifecycleEvent, SettingsText,
};
use crate::text::{equals, join, parse_u64, parsed_u64, pop_char, push_char};

verus! {

/// Whether each real-valued load setting is a number that the runtime accepts: temperature,
/// top p and repetition penalty.
#[derive(Debug, Clone, Copy, PartialEq, Eq, Structural)]
pub struct FloatChecks {
    pub temperature: bool,
    pub top_p: bool,
    pub repetition_penalty: bool,
}

/// The message for a setting whose text is not a valid value.
pub open spec fn invalid_chars(name: Seq<char>, value: Seq<char>) -> Seq<char> {
    "invalid "@ + name + ": `"@ + value + "`"@
}

/// The message for a setting whose text is not a valid value.
pub fn invalid(name: &str, value: &str) -> (message: String)
    ensures
        message@ == invalid_chars(name@, value@),
{
    join(join(join(join("invalid ", name).as_str(), ": `").as_str(), value).as_str(), "`")
}

/// The generation settings of a dialog's fields, or the message for the first invalid field
/// in the order max tokens, temperature, top p, top k, repetition penalty.
pub open spec fn settings_result(fields: [String; 5], checks: FloatChecks) -> Result<(u64, u64), Seq<char>> {
    if parsed_u64(fields[0]@) is None {
        Err(invalid_chars("max tokens"@, fields[0]@))
    } else if !checks.temperature {
        Err(invalid_chars("temperature"@, fields[1]@))
    } else if !checks.top_p {
        Err(invalid_chars("top p"@, fields[2]@))
    } else if parsed_u64(fields[3]@) is None {
        Err(invalid_chars("top k"@, fields[3]@))
    } else if !checks.repetition_penalty {
        Err(invalid_chars("repetition penalty"@, fields[4]@))
    } else {
        Ok((parsed_u64(fields[0]@)->0, parsed_u64(fields[3]@)->0))
    }
}

/// The load request of a dialog: generation settings only for a generation model, then the
/// target and the force flag.
#[verifier::opaque]
pub open spec fn load_request(dialog: LoadDialog, checks: FloatChecks, result: Result<LoadModelRequest, String>) -> bool {
    let generation = dialog.task@ == "generation"@;
    if generation && settings_result(dialog.fields, checks) is Err {
        result matches Err(e) && e@ == settings_result(dialog.fields, checks)->Err_0
    } else {
        result matches Ok(request) && {
            &&& request.selector == dialog.target.selector
            &&& request.config_id == dialog.target.config_id
            &&& request.repo_id == dialog.target.repo_id
            &&& request.revision == dialog.target.revision
            &&& request.commit == dialog.target.commit
            &&& request.force == dialog.force
            &&& if generation {
                request.settings matches Some(s) && {
                    &&& s.max_tokens == settings_result(dialog.fields, checks)->Ok_0.0
                    &&& s.temperature == dialog.fields[1]
                    &&& s.top_p == dialog.fields[2]
                    &&& s.top_k == settings_result(dialog.fields, checks)->Ok_0.1
                    &&& s.repetition_penalty == dialog.fields[4]
                }
            } else {
                request.settings is None
            }
        }
    }
}

/// A new load dialog for `target`, waiting for the model's inspection.
pub open spec fn inspecting_dialog(dialog: LoadDialog, target: LoadTarget) -> bool {
    &&& dialog.target == target
    &&& dialog.task@.len() == 0
    &&& dialog.capabilities is None
    &&& dialog.status == LoadStatus::Inspecting
    &&& forall|i: int| 0 <= i < 5 ==> (#[trigger] dialog.fields[i])@.len() == 0
    &&& dialog.selected == 0
    &&& !dialog.has_mirmir_overrides
    &&& dialog.memory is None
    &&& !dialog.force
    &&& dialog.progress is None
    &&& dialog.error is None
    &&& dialog.restore is None
}

/// `locals` after every local model named `selector` took state `state`.
#[verifier::opaque]
pub open spec fn with_state(pre: Seq<LocalModelInfo>, selector: Seq<char>, state: Seq<char>, post: Seq<LocalModelInfo>) -> bool {
    &&& post.len() == pre.len()
    &&& forall|i: int|
        0 <= i < pre.len() ==> (#[trigger] post[i]) == (if selector_chars(pre[i]) == selector {
            LocalModelInfo { state: post[i].state, ..pre[i] }
        } else {
            pre[i]
        })
    &&& forall|i: int| 0 <= i < pre.len() && selector_chars(pre[i]) == selector ==> (#[trigger] post[i]).state@ == state
}

/// Sets the state of every local model named `selector`.
pub fn set_local_state(models: &mut Vec<LocalModelInfo>, selector: &str, state: &str)
    ensures
        with_state(old(models)@, selector@, state@, final(models)@),
{
    reveal(with_state);
    let ghost pre = models@;
    let mut i: usize = 0;
    while i < models.len()
        invariant
            i <= models@.len(),
            models@.len() == pre.len(),
            forall|j: int|
                0 <= j < i ==> (#[trigger] models@[j]) == (if selector_chars(pre[j]) == selector@ {
                    LocalModelInfo { state: models@[j].state, ..pre[j] }
                } else {
                    pre[j]
                }),
            forall|j: int| 0 <= j < i && selector_chars(pre[j]) == selector@ ==> (#[trigger] models@[j]).state@ == state@,
            forall|j: int| i <= j < pre.len() ==> models@[j] == pre[j],
        decreases pre.len() - i,
    {
        let name = crate::load_target::selector(&models[i]);
        if equals(name.as_str(), selector) {
            let ghost before = models@;
            let mut model = models.remove(i);
            model.state = state.to_owned();
            models.insert(i, model);
            proof {
                assert(models@ =~= before.update(i as int, model));
            }
        }
        i += 1;
    }
}

impl LoadDialog {
    /// The load request of the dialog, or the message for its first invalid setting; `checks`
    /// says which real-valued settings the runtime accepts.
    pub fn request(&self, checks: FloatChecks) -> (result: Result<LoadModelRequest, String>)
        ensures
            load_request(*self, checks, result),
    {
        reveal(load_request);
        let settings = if equals(self.task.as_str(), "generation") {
            let max_tokens = match parse_u64(self.fields[0].as_str()) {
                Some(value) => value,
                None => return Err(invalid("max tokens", self.fields[0].as_str())),
            };
            if !checks.temperature {
                return Err(invalid("temperature", self.fields[1].as_str()));
            }
            if !checks.top_p {
                return Err(invalid("top p", self.fields[2].as_str()));
            }
            let top_k = match parse_u64(self.fields[3].as_str()) {
                Some(value) => value,
                None => return Err(invalid("top k", self.fields[3].as_str())),
            };
            if !checks.repetition_penalty {
                return Err(invalid("repetition penalty", self.fields[4].as_str()));
            }
            Some(
                GenerationSettings {
                    max_tokens,
                    temperature: self.fields[1].clone(),
                    top_p: self.fields[2].clone(),
                    top_k,
                    repetition_penalty: self.fields[4].clone(),
                },
            )
        } else {
            None
        };
        Ok(
            LoadModelRequest {
                selector: self.target.selector.clone(),
                settings,
                config_id: self.target.config_id.clone(),
                repo_id: self.target.repo_id.clone(),
                revision: self.target.revision.clone(),
                commit: self.target.commit.clone(),
                force: self.force,
            },
        )
    }

    /// A new dialog for `target` that waits for the model's inspection.
    pub fn inspecting(target: LoadTarget) -> (dialog: LoadDialog)
        ensures
            inspecting_dialog(dialog, target),
    {
        LoadDialog {
            target,
            task: String::new(),
            capabilities: None,
            status: LoadStatus::Inspecting,
            fields: [String::new(), String::new(), String::new(), String::new(), String::new()],
            selected: 0,
            has_mirmir_overrides: false,
            memory: None,
            force: false,
            progress: None,
            error: None,
            restore: None,
        }
    }
}

/// What a key does to an open load dialog that is not loading.
pub enum LoadKey {
    /// The key does nothing; the dialog stays.
    Ignore(LoadDialog),
    /// `x` closes the dialog.
    Close,
    /// Enter asks to load with the current settings; the dialog stays.
    Confirm(LoadDialog),
    /// Left or right moves the selected setting by one step; the dialog stays.
    Adjust(i8, LoadDialog),
    /// The dialog changes to this one.
    Edit(LoadDialog),
}

/// `dialog` with field `index` changed by `c`: appended when present, last character deleted
/// otherwise.
pub open spec fn field_edited(dialog: LoadDialog, index: int, c: Option<char>, post: LoadDialog) -> bool {
    &&& post == LoadDialog { fields: post.fields, ..dialog }
    &&& forall|i: int| 0 <= i < 5 && i != index ==> (#[trigger] post.fields[i]) == dialog.fields[i]
    &&& post.fields[index]@ == (match c {
        Some(ch) => dialog.fields[index]@.push(ch),
        None => if dialog.fields[index]@.len() > 0 {
            dialog.fields[index]@.drop_last()
        } else {
            dialog.fields[index]@
        },
    })
}

/// What `code` does to `dialog`, when the dialog is being edited.
pub open spec fn load_key(dialog: LoadDialog, code: KeyCode, outcome: LoadKey) -> bool {
    if dialog.status == LoadStatus::Loading {
        outcome == LoadKey::Ignore(dialog)
    } else if code == KeyCode::Char('x') {
        outcome is Close
    } else if dialog.status != LoadStatus::Editing {
        outcome == LoadKey::Ignore(dialog)
    } else {
        match code {
            KeyCode::Enter => outcome == LoadKey::Confirm(dialog),
            KeyCode::Char('f') => outcome == LoadKey::Edit(
                LoadDialog { force: !dialog.force, error: None, ..dialog },
            ),
            KeyCode::Up => outcome == LoadKey::Edit(
                LoadDialog {
                    selected: if dialog.selected > 0 { (dialog.selected - 1) as usize } else { 0 },
                    ..dialog
                },
            ),
            KeyCode::Down | KeyCode::Tab => outcome == LoadKey::Edit(
                LoadDialog {
                    selected: if dialog.selected < 4 { (dialog.selected + 1) as usize } else { 4 },
                    ..dialog
                },
            ),
            KeyCode::Left => outcome == LoadKey::Adjust(-1i8, dialog),
            KeyCode::Right => outcome == LoadKey::Adjust(1i8, dialog),
            KeyCode::Backspace => if dialog.selected < 5 {
                outcome matches LoadKey::Edit(post) && field_edited(dialog, dialog.selected as int, None, post)
            } else {
                outcome == LoadKey::Ignore(dialog)
            },
            KeyCode::Char(c) => if ('0' <= c <= '9' || c == '.') && dialog.selected < 5 {
                outcome matches LoadKey::Edit(post) && field_edited(
                    dialog,
                    dialog.selected as int,
                    Some(c),
                    post,
                )
            } else {
                outcome == LoadKey::Ignore(dialog)
            },
            _ => outcome == LoadKey::Ignore(dialog),
        }
    }
}

impl LoadDialog {
    /// Field `selected` with `c` appended, or its last character deleted.
    pub fn edited(self, c: Option<char>) -> (post: LoadDialog)
        requires
            self.selected < 5,
        ensures
            field_edited(self, self.selected as int, c, post),
    {
        let mut dialog = self;
        let index = dialog.selected;
        let mut field = dialog.fields[index].clone();
        match c {
            Some(ch) => push_char(&mut field, ch),
            None => {
                pop_char(&mut field);
            },
        }
        dialog.fields.set(index, field);
        dialog
    }

    /// What `code` does to the dialog.
    pub fn key(self, code: KeyCode) -> (outcome: LoadKey)
        ensures
            load_key(self, code, outcome),
    {
        if self.status == LoadStatus::Loading {
            return LoadKey::Ignore(self);
        }
        if code == KeyCode::Char('x') {
            return LoadKey::Close;
        }
        if self.status != LoadStatus::Editing {
            return LoadKey::Ignore(self);
        }
        match code {
            KeyCode::Enter => LoadKey::Confirm(self),
            KeyCode::Up => {
                let selected = if self.selected > 0 { self.selected - 1 } else { 0 };
                LoadKey::Edit(LoadDialog { selected, ..self })
            },
            KeyCode::Down | KeyCode::Tab => {
                let selected = if self.selected < 4 { self.selected + 1 } else { 4 };
                LoadKey::Edit(LoadDialog { selected, ..self })
            },
            KeyCode::Left => LoadKey::Adjust(-1, self),
            KeyCode::Right => LoadKey::Adjust(1, self),
            KeyCode::Backspace => {
                if self.selected < FIELD_COUNT {
                    LoadKey::Edit(self.edited(None))
                } else {
                    LoadKey::Ignore(self)
                }
            },
            KeyCode::Char(c) => {
                if c == 'f' {
                    let force = !self.force;
                    LoadKey::Edit(LoadDialog { force, error: None, ..self })
                } else if (('0' <= c && c <= '9') || c == '.') && self.selected < FIELD_COUNT {
                    LoadKey::Edit(self.edited(Some(c)))
                } else {
                    LoadKey::Ignore(self)
                }
            },
            _ => LoadKey::Ignore(self),
        }
    }
}

/// The load dialog after the inspection `response`, when it carries what the task needs:
/// a generation model must come with its settings, whose texts fill the fields.
pub open spec fn inspected(dialog: LoadDialog, response: InspectModelResponse, post: LoadDialog) -> bool {
    &&& post.task@ == (if response.task@.len() == 0 && response.settings is Some {
        "generation"@
    } else {
        response.task@
    })
    &&& post.capabilities == response.capabilities
    &&& post.fields == (match response.settings {
        Some(s) => [s.max_tokens, s.temperature, s.top_p, s.top_k, s.repetition_penalty],
        None => dialog.fields,
    })
    &&& post.has_mirmir_overrides == response.has_mirmir_overrides
    &&& post.memory == response.memory
    &&& post.status == LoadStatus::Editing
    &&& post.error is None
    &&& post == LoadDialog {
        task: post.task,
        capabilities: post.capabilities,
        fields: post.fields,
        has_mirmir_overrides: post.has_mirmir_overrides,
        memory: post.memory,
        status: post.status,
        error: post.error,
        ..dialog
    }
}

/// Whether the inspection `response` lacks the settings that its task needs.
pub open spec fn inspection_incomplete(response: InspectModelResponse) -> bool {
    response.settings is None && response.task@ == "generation"@
}

/// `dialog` showing `error` while its settings stay editable.
pub open spec fn failed_dialog(dialog: LoadDialog, error: String) -> LoadDialog {
    LoadDialog { status: LoadStatus::Editing, error: Some(error), ..dialog }
}

/// `app` after opening the load dialog on the selection, which asks for its inspection;
/// `key` is the runtime's configuration key for the selected search result.
pub open spec fn load_dialog_opened(pre: App, key: Option<String>, post: App, command: Option<Command>) -> bool {
    &&& (pre.lifecycle_pending || pre.settings_pending ==> {
        &&& command is None
        &&& post == (App { action_message: post.action_message, ..pre })
        &&& (post.action_message matches Some(m) && m@
            == "another model lifecycle operation is active"@)
    })
    &&& (!(pre.lifecycle_pending || pre.settings_pending) ==> match target_decision(pre) {
        TargetDecision::Nothing => command is None && post == pre,
        TargetDecision::Refuse(m) => command is None && post == (App {
            action_message: post.action_message,
            ..pre
        }) && (post.action_message matches Some(s) && s@ == m),
        decision => {
            &&& post == (App {
                load_dialog: post.load_dialog,
                settings_pending: true,
                ..pre
            })
            &&& (post.load_dialog matches Some(d) && target_of(pre, decision, key, d.target)
                && inspecting_dialog(d, d.target))
            &&& (command matches Some(Command::InspectModel { selector }) && selector
                == post.load_dialog->0.target.selector)
        }
    })
}

/// `app` after a key on the load dialog.
pub open spec fn load_key_handled(pre: App, code: KeyCode, post: App, command: Option<Command>) -> bool {
    &&& (pre.load_dialog is None ==> command is None && post == pre)
    &&& (pre.load_dialog matches Some(dialog) ==> exists|outcome: LoadKey|
        load_key(dialog, code, outcome) && match outcome {
            LoadKey::Ignore(_) => command is None && post == pre,
            LoadKey::Close => command is None && post == (App {
                load_dialog: None,
                settings_pending: false,
                ..pre
            }),
            LoadKey::Confirm(_) => command == Some(Command::ConfirmLoad) && post
                == pre,
            LoadKey::Adjust(direction, _) => command == Some(
                Command::AdjustLoadSetting { direction },
            ) && post == pre,
            LoadKey::Edit(d) => command is None && post == (App {
                load_dialog: Some(d),
                ..pre
            }),
        })
}

impl App {
    /// Opens the load dialog on the selected model and asks for its inspection, unless another
    /// load or inspection runs or the selection cannot be loaded, which the action message then
    /// says. `key` is the runtime's configuration key for the selected search result.
    pub fn open_load_dialog(&mut self, key: Option<String>) -> (command: Option<Command>)
        ensures
            load_dialog_opened(*old(self), key, *final(self), command),
    {
        if self.lifecycle_pending || self.settings_pending {
            self.action_message = Some("another model lifecycle operation is active".to_owned());
            return None;
        }
        let target = match self.load_target(key) {
            Some(target) => target,
            None => return None,
        };
        let selector = target.selector.clone();
        self.load_dialog = Some(LoadDialog::inspecting(target));
        self.settings_pending = true;
        Some(Command::InspectModel { selector })
    }

    /// Keys of the load dialog: `x` closes it, Enter asks to load, `f` toggles a forced load,
    /// arrows choose and step settings, digits and `.` type into the selected one. A load that
    /// runs ignores keys.
    pub fn handle_load_key(&mut self, code: KeyCode) -> (command: Option<Command>)
        ensures
            load_key_handled(*old(self), code, *final(self), command),
    {
        let dialog = match self.load_dialog.take() {
            Some(dialog) => dialog,
            None => return None,
        };
        let outcome = dialog.key(code);
        let ghost chosen = outcome;
        match outcome {
            LoadKey::Ignore(dialog) => {
                self.load_dialog = Some(dialog);
                None
            },
            LoadKey::Close => {
                self.settings_pending = false;
                None
            },
            LoadKey::Confirm(dialog) => {
                self.load_dialog = Some(dialog);
                Some(Command::ConfirmLoad)
            },
            LoadKey::Adjust(direction, dialog) => {
                self.load_dialog = Some(dialog);
                Some(Command::AdjustLoadSetting { direction })
            },
            LoadKey::Edit(post) => {
                self.load_dialog = Some(post);
                None
            },
        }
    }
}

/// Whether `models` holds a model with id `id`.
pub open spec fn has_model(models: Seq<ModelInfo>, id: Seq<char>) -> bool {
    exists|i: int| 0 <= i < models.len() && (#[trigger] models[i]).id@ == id
}

/// Position of the first local model that a loaded `model` is: same id or same path.
pub open spec fn first_local_for(locals: Seq<LocalModelInfo>, model: ModelInfo) -> Option<int> {
    if exists|i: int|
        0 <= i < locals.len() && ((#[trigger] locals[i]).id@ == model.id@ || locals[i].path@
            == model.path@) && forall|j: int|
            0 <= j < i ==> !(locals[j].id@ == model.id@ || locals[j].path@ == model.path@) {
        Some(
            choose|i: int|
                0 <= i < locals.len() && ((#[trigger] locals[i]).id@ == model.id@ || locals[i].path@
                    == model.path@) && forall|j: int|
                    0 <= j < i ==> !(locals[j].id@ == model.id@ || locals[j].path@ == model.path@),
        )
    } else {
        None
    }
}

/// Whether `models` holds a model with id `id`.
pub fn contains_model(models: &Vec<ModelInfo>, id: &str) -> (found: bool)
    ensures
        found == has_model(models@, id@),
{
    let mut i: usize = 0;
    while i < models.len()
        invariant
            i <= models@.len(),
            forall|j: int| 0 <= j < i ==> models@[j].id@ != id@,
        decreases models@.len() - i,
    {
        if equals(models[i].id.as_str(), id) {
            return true;
        }
        i += 1;
    }
    false
}

/// `post` is `pre` with the first local model that the loaded `model` is marked ready.
#[verifier::opaque]
pub open spec fn ready_marked(pre: Seq<LocalModelInfo>, model: ModelInfo, post: Seq<LocalModelInfo>) -> bool {
    &&& post.len() == pre.len()
    &&& forall|i: int|
        0 <= i < pre.len() ==> (#[trigger] post[i]) == (if first_local_for(pre, model) == Some(i) {
            LocalModelInfo { state: post[i].state, ..pre[i] }
        } else {
            pre[i]
        })
    &&& first_local_for(pre, model) matches Some(i) ==> post[i].state@ == "ready"@
}

/// `post` is `pre` with `model` added unless a model with its id is there.
pub open spec fn model_added(pre: Seq<ModelInfo>, model: ModelInfo, post: Seq<ModelInfo>) -> bool {
    post == (if has_model(pre, model.id@) { pre } else { pre.push(model) })
}

/// Adds `model` to the loaded models unless a model with its id is there.
pub fn add_model(models: &mut Vec<ModelInfo>, model: ModelInfo)
    ensures
        model_added(old(models)@, model, final(models)@),
{
    if !contains_model(models, model.id.as_str()) {
        models.push(model);
    }
}

/// Marks the first local model that the loaded `model` is as ready.
pub fn mark_ready(locals: &mut Vec<LocalModelInfo>, model: &ModelInfo)
    ensures
        ready_marked(old(locals)@, *model, final(locals)@),
{
    reveal(ready_marked);
    let mut i: usize = 0;
    while i < locals.len()
        invariant
            i <= locals@.len(),
            locals@ == old(locals)@,
            forall|j: int|
                0 <= j < i ==> !(locals@[j].id@ == model.id@ || locals@[j].path@ == model.path@),
        decreases locals@.len() - i,
    {
        if equals(locals[i].id.as_str(), model.id.as_str()) || equals(
            locals[i].path.as_str(),
            model.path.as_str(),
        ) {
            proof {
                reveal(ready_marked);
                let c = choose|c: int|
                    0 <= c < locals@.len() && ((#[trigger] locals@[c]).id@ == model.id@
                        || locals@[c].path@ == model.path@) && forall|j: int|
                        0 <= j < c ==> !(locals@[j].id@ == model.id@ || locals@[j].path@ == model.path@);
                assert(c == i);
            }
            let ghost before = locals@;
            let mut local = locals.remove(i);
            local.state = "ready".to_owned();
            locals.insert(i, local);
            proof {
                assert(locals@ =~= before.update(i as int, local));
            }
            return;
        }
        i += 1;
    }
}

impl LoadDialog {
    /// The dialog after a complete inspection.
    pub fn inspected(self, response: InspectModelResponse) -> (post: LoadDialog)
        requires
            !inspection_incomplete(response),
        ensures
            inspected(self, response, post),
    {
        let task = if response.task.as_str().is_empty() && response.settings.is_some() {
            "generation".to_owned()
        } else {
            response.task
        };
        let fields = match response.settings {
            Some(settings) => [
                settings.max_tokens,
                settings.temperature,
                settings.top_p,
                settings.top_k,
                settings.repetition_penalty,
            ],
            None => self.fields,
        };
        LoadDialog {
            task,
            capabilities: response.capabilities,
            fields,
            has_mirmir_overrides: response.has_mirmir_overrides,
            memory: response.memory,
            status: LoadStatus::Editing,
            error: None,
            ..self
        }
    }
}

/// The load dialog after the answer to its inspection.
pub open spec fn inspection_applied(
    pre: Option<LoadDialog>,
    result: Result<InspectModelResponse, String>,
    post: Option<LoadDialog>,
) -> bool {
    match pre {
        None => post is None,
        Some(d) => match result {
            Err(e) => post == Some(failed_dialog(d, e)),
            Ok(r) => if inspection_incomplete(r) {
                post matches Some(p) && p == LoadDialog { status: LoadStatus::Editing, error: p.error, ..d }
                    && (p.error matches Some(m) && m@ == "server returned no model settings"@)
            } else {
                post matches Some(p) && inspected(d, r, p)
            },
        },
    }
}

/// The load dialog after the answer to its inspection.
pub fn after_inspection(pre: Option<LoadDialog>, result: Result<InspectModelResponse, String>) -> (post:
    Option<LoadDialog>)
    ensures
        inspection_applied(pre, result, post),
{
    let dialog = match pre {
        Some(dialog) => dialog,
        None => return None,
    };
    match result {
        Err(error) => Some(LoadDialog { status: LoadStatus::Editing, error: Some(error), ..dialog }),
        Ok(response) => {
            let generation = equals(response.task.as_str(), "generation");
            if response.settings.is_none() && generation {
                Some(
                    LoadDialog {
                        status: LoadStatus::Editing,
                        error: Some("server returned no model settings".to_owned()),
                        ..dialog
                    },
                )
            } else {
                Some(dialog.inspected(response))
            }
        },
    }
}

impl App {
    /// Shows `error` in the load dialog, whose settings stay editable.
    pub fn fail_inspection(&mut self, error: String)
        ensures
            *final(self) == (App {
                load_dialog: match old(self).load_dialog {
                    Some(d) => Some(failed_dialog(d, error)),
                    None => None,
                },
                ..*old(self)
            }),
    {
        if let Some(dialog) = self.load_dialog.take() {
            self.load_dialog = Some(LoadDialog { status: LoadStatus::Editing, error: Some(error), ..dialog });
        }
    }

    /// Takes the answer to the load dialog's inspection: a complete answer fills the dialog; an
    /// error, or a generation model without settings, is shown in it.
    pub fn apply_inspection(&mut self, result: Result<InspectModelResponse, String>)
        ensures
            *final(self) == (App {
                settings_pending: false,
                load_dialog: final(self).load_dialog,
                ..*old(self)
            }),
            inspection_applied(old(self).load_dialog, result, final(self).load_dialog),
    {
        let dialog = self.load_dialog.take();
        self.load_dialog = after_inspection(dialog, result);
        self.settings_pending = false;
    }

    /// Sends the load of the dialog's model, marking it as loading locally: no restore is in
    /// flight any more, and the dialog shows the load's progress.
    pub fn start_load_request(&mut self, request: LoadModelRequest) -> (command: Command)
        ensures
            command == Command::LoadModel(request),
            with_state(old(self).local_models@, request.selector@, "loading"@, final(self).local_models@),
            *final(self) == (App {
                restore_in_flight: None,
                local_models: final(self).local_models,
                load_dialog: match old(self).load_dialog {
                    Some(d) => Some(LoadDialog { status: LoadStatus::Loading, progress: None, error: None, ..d }),
                    None => None,
                },
                lifecycle_pending: true,
                ..*old(self)
            }),
    {
        self.restore_in_flight = None;
        set_local_state(&mut self.local_models, request.selector.as_str(), "loading");
        if let Some(dialog) = self.load_dialog.take() {
            self.load_dialog = Some(
                LoadDialog { status: LoadStatus::Loading, progress: None, error: None, ..dialog },
            );
        }
        self.lifecycle_pending = true;
        Command::LoadModel(request)
    }

    /// Loads with the dialog's settings when they are valid, or shows the first invalid one in
    /// the dialog; `checks` says which real-valued settings the runtime accepts.
    pub fn confirm_load(&mut self, checks: FloatChecks) -> (command: Option<Command>)
        ensures
            old(self).load_dialog is None ==> command is None && *final(self) == *old(self),
            old(self).load_dialog matches Some(d) ==> match command {
                Some(Command::LoadModel(request)) => {
                    &&& load_request(d, checks, Ok(request))
                    &&& with_state(
                        old(self).local_models@,
                        request.selector@,
                        "loading"@,
                        final(self).local_models@,
                    )
                    &&& *final(self) == (App {
                        restore_in_flight: None,
                        local_models: final(self).local_models,
                        load_dialog: Some(
                            LoadDialog { status: LoadStatus::Loading, progress: None, error: None, ..d },
                        ),
                        lifecycle_pending: true,
                        ..*old(self)
                    })
                },
                Some(_) => false,
                None => {
                    &&& (final(self).load_dialog matches Some(post) && post.error is Some && load_request(
                        d,
                        checks,
                        Err(post.error->0),
                    ) && post == LoadDialog { error: post.error, ..d })
                    &&& *final(self) == (App { load_dialog: final(self).load_dialog, ..*old(self) })
                },
            },
    {
        let result = match &self.load_dialog {
            Some(dialog) => dialog.request(checks),
            None => return None,
        };
        match result {
            Err(error) => {
                let dialog = self.load_dialog.take().unwrap();
                self.load_dialog = Some(LoadDialog { error: Some(error), ..dialog });
                None
            },
            Ok(request) => {
                let command = self.start_load_request(request);
                Some(command)
            },
        }
    }
}

/// The message of a lifecycle event: its phase, then its detail.
pub open spec fn lifecycle_message(event: ModelLifecycleEvent) -> Seq<char> {
    event.phase@ + " · "@ + event.detail@
}

/// `pre` after the progress `event` of a load: the dialog shows it, and once it carries the
/// loaded model, that model is ready locally, joins the loaded models, and the dialog and the
/// restore in flight end.
pub open spec fn load_event_applied(pre: App, event: ModelLifecycleEvent, post: App) -> bool {
    &&& (post.action_message matches Some(m) && m@ == lifecycle_message(event))
    &&& match event.model {
        None => post == App {
            action_message: post.action_message,
            load_dialog: match pre.load_dialog {
                Some(d) => Some(LoadDialog { progress: Some(event), ..d }),
                None => None,
            },
            ..pre
        },
        Some(model) => {
            &&& ready_marked(pre.local_models@, model, post.local_models@)
            &&& model_added(pre.models@, model, post.models@)
            &&& post == App {
                action_message: post.action_message,
                local_models: post.local_models,
                models: post.models,
                restore_in_flight: None,
                load_dialog: None,
                ..pre
            }
        },
    }
}

/// The load dialog after a failed load: a load that the dialog started shows the error.
pub fn dialog_after_failure(dialog: Option<LoadDialog>, restoring: bool, error: String) -> (post: Option<LoadDialog>)
    ensures
        post == (match dialog {
            Some(d) => if !restoring {
                Some(LoadDialog { status: LoadStatus::Editing, error: Some(error), ..d })
            } else {
                Some(d)
            },
            None => None,
        }),
{
    match dialog {
        Some(d) => if !restoring {
            Some(LoadDialog { status: LoadStatus::Editing, error: Some(error), ..d })
        } else {
            Some(d)
        },
        None => None,
    }
}

/// The model whose load failed: the dialog's target, or else the model being restored.
pub open spec fn failed_selector(app: App) -> Option<Seq<char>> {
    match app.load_dialog {
        Some(d) => Some(d.target.selector@),
        None => match app.restore_in_flight {
            Some(s) => Some(s@),
            None => None,
        },
    }
}

impl App {
    /// The model whose load failed: the dialog's target, or else the model being restored.
    pub fn failed_selector(&self) -> (selector: Option<String>)
        ensures
            match failed_selector(*self) {
                Some(s) => selector matches Some(t) && t@ == s,
                None => selector is None,
            },
    {
        match &self.load_dialog {
            Some(dialog) => Some(dialog.target.selector.clone()),
            None => match &self.restore_in_flight {
                Some(selector) => Some(selector.clone()),
                None => None,
            },
        }
    }

    /// Takes a progress event of the running load.
    pub fn apply_load_event(&mut self, event: ModelLifecycleEvent)
        ensures
            load_event_applied(*old(self), event, *final(self)),
    {
        let message = join(join(event.phase.as_str(), " · ").as_str(), event.detail.as_str());
        self.action_message = Some(message);
        let model = match &event.model {
            Some(model) => Some(model.copied()),
            None => None,
        };
        match model {
            None => {
                if let Some(dialog) = self.load_dialog.take() {
                    self.load_dialog = Some(LoadDialog { progress: Some(event), ..dialog });
                }
            },
            Some(model) => {
                mark_ready(&mut self.local_models, &model);
                add_model(&mut self.models, model);
                self.restore_in_flight = None;
                self.load_dialog = None;
            },
        }
    }

    /// The running load failed: its model is available again locally, the error becomes the
    /// action message, and a load that the dialog started shows it there.
    pub fn fail_load(&mut self, error: String)
        ensures
            final(self).action_message == Some(error),
            !final(self).lifecycle_pending,
            final(self).restore_in_flight is None,
            match failed_selector(*old(self)) {
                Some(s) => with_state(old(self).local_models@, s, "available"@, final(self).local_models@),
                None => final(self).local_models == old(self).local_models,
            },
            final(self).load_dialog == (match old(self).load_dialog {
                Some(d) => if old(self).restore_in_flight is None {
                    Some(LoadDialog { status: LoadStatus::Editing, error: Some(error), ..d })
                } else {
                    Some(d)
                },
                None => None,
            }),
            *final(self) == (App {
                action_message: final(self).action_message,
                lifecycle_pending: false,
                restore_in_flight: None,
                local_models: final(self).local_models,
                load_dialog: final(self).load_dialog,
                ..*old(self)
            }),
    {
        if let Some(selector) = self.failed_selector() {
            set_local_state(&mut self.local_models, selector.as_str(), "available");
        }
        let restoring = self.restore_in_flight.is_some();
        let dialog = self.load_dialog.take();
        self.load_dialog = dialog_after_failure(dialog, restoring, error.clone());
        self.action_message = Some(error);
        self.restore_in_flight = None;
        self.lifecycle_pending = false;
    }

    /// The load stream ended; a load that was still running failed.
    pub fn finish_load_stream(&mut self)
        ensures
            !final(self).lifecycle_pending,
            !(old(self).restore_in_flight is Some || (old(self).load_dialog matches Some(d) && d.status
                == LoadStatus::Loading)) ==> *final(self) == (App { lifecycle_pending: false, ..*old(self) }),
            (old(self).restore_in_flight is Some || (old(self).load_dialog matches Some(d) && d.status
                == LoadStatus::Loading)) ==> (final(self).action_message matches Some(m) && m@
                == "model load ended before the model became ready"@),
    {
        self.lifecycle_pending = false;
        let loading = match &self.load_dialog {
            Some(dialog) => dialog.status == LoadStatus::Loading,
            None => false,
        };
        if self.restore_in_flight.is_some() || loading {
            self.fail_load("model load ended before the model became ready".to_owned());
        }
    }
}

} // verus!
