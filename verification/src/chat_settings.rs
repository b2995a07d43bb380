//! Chat generation parameters: the dialog that edits them and the requests that they shape.
use vstd::prelude::*;

use crate::app::{App, Command};
use crate::dialogs::{ChatSettingsDialog, ChatSettingsStatus};
use crate::input::KeyCode;
use crate::load::{invalid, invalid_chars};
use crate::records::{GenerateRequest, InspectModelResponse, ModelInfo, SettingsText};
use crate::text::{decimal, decimal_chars, equals, join, lemma_decimal_parses, parse_u64, parsed_u64, pop_char, push_char};

verus! {

/// Generation parameters that chat requests for `model` carry. The real-valued ones hold the
/// spelling of the value that the dialog read.
#[derive(Debug, Clone)]
pub struct ChatParameters {
    pub model: String,
    pub max_tokens: u64,
    pub temperature: String,
    pub top_p: String,
    pub top_k: u64,
    pub repetition_penalty: String,
    pub seed: Option<u64>,
}

/// The real-valued chat parameters as read from a dialog's fields: for each one the spelling
/// of its value where the field holds a number, and whether the values lie where the runtime
/// accepts them.
#[derive(Debug, Clone)]
pub struct RealFields {
    pub temperature: Option<String>,
    pub top_p: Option<String>,
    pub repetition_penalty: Option<String>,
    /// The temperature is finite and not negative.
    pub temperature_valid: bool,
    /// Top p is finite and lies between 0 and 1.
    pub top_p_valid: bool,
    /// The repetition penalty is above zero.
    pub repetition_penalty_positive: bool,
}

/// An unsigned integer setting, or the message that names it and its text.
pub open spec fn number_result(value: Seq<char>, name: Seq<char>) -> Result<u64, Seq<char>> {
    match parsed_u64(value) {
        Some(v) => Ok(v),
        None => Err(invalid_chars(name, value)),
    }
}

/// An optional unsigned integer setting: empty for none.
pub open spec fn optional_result(value: Seq<char>, name: Seq<char>) -> Result<Option<u64>, Seq<char>> {
    if value.len() == 0 {
        Ok(None)
    } else {
        match parsed_u64(value) {
            Some(v) => Ok(Some(v)),
            None => Err(invalid_chars(name, value)),
        }
    }
}

/// The first problem of a dialog's fields, in the order in which they are read and then
/// checked: max tokens, temperature, top p, top k, repetition penalty, seed, then the ranges.
pub open spec fn parameters_error(fields: [String; 6], reals: RealFields) -> Option<Seq<char>> {
    if parsed_u64(fields[0]@) is None {
        Some(invalid_chars("max tokens"@, fields[0]@))
    } else if reals.temperature is None {
        Some(invalid_chars("temperature"@, fields[1]@))
    } else if reals.top_p is None {
        Some(invalid_chars("top p"@, fields[2]@))
    } else if parsed_u64(fields[3]@) is None {
        Some(invalid_chars("top k"@, fields[3]@))
    } else if reals.repetition_penalty is None {
        Some(invalid_chars("repetition penalty"@, fields[4]@))
    } else if optional_result(fields[5]@, "seed"@) is Err {
        Some(optional_result(fields[5]@, "seed"@)->Err_0)
    } else if parsed_u64(fields[0]@)->0 == 0 || !reals.repetition_penalty_positive {
        Some("max tokens and repetition penalty must be positive"@)
    } else if !reals.temperature_valid {
        Some("temperature must be finite and non-negative"@)
    } else if !reals.top_p_valid {
        Some("top p must be between 0 and 1"@)
    } else {
        None
    }
}

/// The parameters that a dialog yields, or the message for its first problem.
pub open spec fn parameters_of(dialog: ChatSettingsDialog, reals: RealFields, result: Result<ChatParameters, String>) -> bool {
    match parameters_error(dialog.fields, reals) {
        Some(message) => result matches Err(e) && e@ == message,
        None => result matches Ok(p) && {
            &&& p.model == dialog.model
            &&& p.max_tokens == parsed_u64(dialog.fields[0]@)->0
            &&& p.temperature == reals.temperature->0
            &&& p.top_p == reals.top_p->0
            &&& p.top_k == parsed_u64(dialog.fields[3]@)->0
            &&& p.repetition_penalty == reals.repetition_penalty->0
            &&& p.seed == optional_result(dialog.fields[5]@, "seed"@)->Ok_0
        },
    }
}

/// The fields that show `settings` and `seed`: the five settings as spelled, then the seed,
/// empty where there is none.
pub open spec fn shows_settings(fields: [String; 6], settings: SettingsText, seed: Option<u64>) -> bool {
    &&& fields[0]@ == settings.max_tokens@
    &&& fields[1]@ == settings.temperature@
    &&& fields[2]@ == settings.top_p@
    &&& fields[3]@ == settings.top_k@
    &&& fields[4]@ == settings.repetition_penalty@
    &&& fields[5]@ == match seed {
        Some(s) => decimal_chars(s as nat),
        None => Seq::<char>::empty(),
    }
}

/// The settings text of `parameters`.
pub open spec fn settings_of(parameters: ChatParameters, settings: SettingsText) -> bool {
    &&& settings.max_tokens@ == decimal_chars(parameters.max_tokens as nat)
    &&& settings.temperature@ == parameters.temperature@
    &&& settings.top_p@ == parameters.top_p@
    &&& settings.top_k@ == decimal_chars(parameters.top_k as nat)
    &&& settings.repetition_penalty@ == parameters.repetition_penalty@
}

/// A dialog that edits `parameters`, opened on its first field.
pub open spec fn editing_parameters(dialog: ChatSettingsDialog, parameters: ChatParameters) -> bool {
    &&& dialog.model == parameters.model
    &&& dialog.fields[0]@ == decimal_chars(parameters.max_tokens as nat)
    &&& dialog.fields[1]@ == parameters.temperature@
    &&& dialog.fields[2]@ == parameters.top_p@
    &&& dialog.fields[3]@ == decimal_chars(parameters.top_k as nat)
    &&& dialog.fields[4]@ == parameters.repetition_penalty@
    &&& dialog.fields[5]@ == match parameters.seed {
        Some(s) => decimal_chars(s as nat),
        None => Seq::<char>::empty(),
    }
    &&& dialog.selected == 0
    &&& !dialog.save_default
    &&& !dialog.persisted
    &&& dialog.status == ChatSettingsStatus::Editing
    &&& dialog.error is None
}

/// The unsigned integer that `value` spells, or the message that names the setting.
pub fn parse(value: &str, name: &str) -> (result: Result<u64, String>)
    ensures
        match result {
            Ok(v) => number_result(value@, name@) == Ok::<u64, Seq<char>>(v),
            Err(e) => number_result(value@, name@) == Err::<u64, Seq<char>>(e@),
        },
{
    match parse_u64(value) {
        Some(v) => Ok(v),
        None => Err(invalid(name, value)),
    }
}

/// An optional unsigned integer: none for an empty field, else the number that it spells or
/// the message that names the setting.
pub fn optional(value: &str, name: &str) -> (result: Result<Option<u64>, String>)
    ensures
        match result {
            Ok(v) => optional_result(value@, name@) == Ok::<Option<u64>, Seq<char>>(v),
            Err(e) => optional_result(value@, name@) == Err::<Option<u64>, Seq<char>>(e@),
        },
{
    if value.is_empty() {
        Ok(None)
    } else {
        match parse(value, name) {
            Ok(v) => Ok(Some(v)),
            Err(e) => Err(e),
        }
    }
}

/// The dialog fields that show `settings` and `seed`.
pub fn settings_fields(settings: &SettingsText, seed: Option<u64>) -> (fields: [String; 6])
    ensures
        shows_settings(fields, *settings, seed),
{
    let seed_text = match seed {
        Some(s) => decimal(s),
        None => String::new(),
    };
    [
        settings.max_tokens.clone(),
        settings.temperature.clone(),
        settings.top_p.clone(),
        settings.top_k.clone(),
        settings.repetition_penalty.clone(),
        seed_text,
    ]
}

impl ChatParameters {
    /// A copy of the parameters.
    pub fn copied(&self) -> (copy: ChatParameters)
        ensures
            copy == *self,
    {
        ChatParameters {
            model: self.model.clone(),
            max_tokens: self.max_tokens,
            temperature: self.temperature.clone(),
            top_p: self.top_p.clone(),
            top_k: self.top_k,
            repetition_penalty: self.repetition_penalty.clone(),
            seed: self.seed,
        }
    }

    /// The five generation settings as the dialog spells them.
    pub fn settings(&self) -> (settings: SettingsText)
        ensures
            settings_of(*self, settings),
    {
        SettingsText {
            max_tokens: decimal(self.max_tokens),
            temperature: self.temperature.clone(),
            top_p: self.top_p.clone(),
            top_k: decimal(self.top_k),
            repetition_penalty: self.repetition_penalty.clone(),
        }
    }
}

impl ChatSettingsDialog {
    /// A dialog that edits `parameters`.
    pub fn from_parameters(parameters: &ChatParameters) -> (dialog: ChatSettingsDialog)
        ensures
            editing_parameters(dialog, *parameters),
    {
        ChatSettingsDialog {
            model: parameters.model.clone(),
            fields: settings_fields(&parameters.settings(), parameters.seed),
            selected: 0,
            save_default: false,
            persisted: false,
            status: ChatSettingsStatus::Editing,
            error: None,
        }
    }

    /// The parameters of the dialog's fields, or the message for the first invalid one;
    /// `reals` holds what the real-valued fields read as.
    pub fn parameters(&self, reals: &RealFields) -> (result: Result<ChatParameters, String>)
        ensures
            parameters_of(*self, *reals, result),
    {
        let max_tokens = match parse(self.fields[0].as_str(), "max tokens") {
            Ok(v) => v,
            Err(e) => return Err(e),
        };
        let temperature = match &reals.temperature {
            Some(v) => v.clone(),
            None => return Err(invalid("temperature", self.fields[1].as_str())),
        };
        let top_p = match &reals.top_p {
            Some(v) => v.clone(),
            None => return Err(invalid("top p", self.fields[2].as_str())),
        };
        let top_k = match parse(self.fields[3].as_str(), "top k") {
            Ok(v) => v,
            Err(e) => return Err(e),
        };
        let repetition_penalty = match &reals.repetition_penalty {
            Some(v) => v.clone(),
            None => return Err(invalid("repetition penalty", self.fields[4].as_str())),
        };
        let seed = match optional(self.fields[5].as_str(), "seed") {
            Ok(v) => v,
            Err(e) => return Err(e),
        };
        if max_tokens == 0 || !reals.repetition_penalty_positive {
            return Err("max tokens and repetition penalty must be positive".to_owned());
        }
        if !reals.temperature_valid {
            return Err("temperature must be finite and non-negative".to_owned());
        }
        if !reals.top_p_valid {
            return Err("top p must be between 0 and 1".to_owned());
        }
        Ok(
            ChatParameters {
                model: self.model.clone(),
                max_tokens,
                temperature,
                top_p,
                top_k,
                repetition_penalty,
                seed,
            },
        )
    }
}

/// What the runtime answered to a chat settings request.
#[derive(Debug)]
pub enum ChatSettingsEvent {
    /// The model's inspection, with its generation defaults.
    Inspected(InspectModelResponse),
    /// The parameters were saved as the defaults of this model.
    Saved { model_id: String },
}

/// What a key does to the open chat parameter dialog.
#[derive(Debug)]
pub enum ChatSettingsKey {
    /// The key does nothing; the dialog stays.
    Ignore(ChatSettingsDialog),
    /// `x` or Esc closes the dialog.
    Close,
    /// Enter applies the parameters; the dialog stays.
    Apply(ChatSettingsDialog),
    /// The dialog changes to this one.
    Edit(ChatSettingsDialog),
}

/// A dialog that waits for the defaults of `model`.
pub open spec fn waiting_for_defaults(dialog: ChatSettingsDialog, model: String) -> bool {
    &&& dialog.model == model
    &&& forall|i: int| 0 <= i < 6 ==> (#[trigger] dialog.fields[i])@.len() == 0
    &&& dialog.selected == 0
    &&& !dialog.save_default
    &&& !dialog.persisted
    &&& dialog.status == ChatSettingsStatus::Inspecting
    &&& dialog.error is None
}

/// `dialog` with its selected field changed by `c`: appended when present, last character
/// deleted otherwise; the error is cleared.
pub open spec fn chat_field_edited(dialog: ChatSettingsDialog, c: Option<char>, post: ChatSettingsDialog) -> bool {
    let index = dialog.selected as int;
    &&& post == ChatSettingsDialog { fields: post.fields, error: None, ..dialog }
    &&& forall|i: int| 0 <= i < 6 && i != index ==> (#[trigger] post.fields[i]) == dialog.fields[i]
    &&& post.fields[index]@ == (match c {
        Some(ch) => dialog.fields[index]@.push(ch),
        None => if dialog.fields[index]@.len() > 0 {
            dialog.fields[index]@.drop_last()
        } else {
            dialog.fields[index]@
        },
    })
}

/// What `code` does to `dialog`.
pub open spec fn chat_settings_key(dialog: ChatSettingsDialog, code: KeyCode, outcome: ChatSettingsKey) -> bool {
    if code == KeyCode::Esc || code == KeyCode::Char('x') || code == KeyCode::Char('X') {
        outcome is Close
    } else if dialog.status != ChatSettingsStatus::Editing {
        outcome == ChatSettingsKey::Ignore(dialog)
    } else {
        match code {
            KeyCode::Enter => outcome == ChatSettingsKey::Apply(dialog),
            KeyCode::Char('s') | KeyCode::Char('S') => outcome == ChatSettingsKey::Edit(
                ChatSettingsDialog { save_default: !dialog.save_default, ..dialog },
            ),
            KeyCode::Up => outcome == ChatSettingsKey::Edit(
                ChatSettingsDialog {
                    selected: if dialog.selected > 0 { (dialog.selected - 1) as usize } else { 0 },
                    ..dialog
                },
            ),
            KeyCode::Down | KeyCode::Tab => outcome == ChatSettingsKey::Edit(
                ChatSettingsDialog {
                    selected: if dialog.selected < 5 { (dialog.selected + 1) as usize } else { 5 },
                    ..dialog
                },
            ),
            KeyCode::Backspace => if dialog.selected < 6 {
                outcome matches ChatSettingsKey::Edit(post) && chat_field_edited(dialog, None, post)
            } else {
                outcome == ChatSettingsKey::Ignore(dialog)
            },
            KeyCode::Char(c) => if ('0' <= c <= '9' || c == '.') && dialog.selected < 6 {
                outcome matches ChatSettingsKey::Edit(post) && chat_field_edited(dialog, Some(c), post)
            } else {
                outcome == ChatSettingsKey::Ignore(dialog)
            },
            _ => outcome == ChatSettingsKey::Ignore(dialog),
        }
    }
}

impl ChatSettingsDialog {
    /// The selected field with `c` appended, or its last character deleted.
    pub fn edited(self, c: Option<char>) -> (post: ChatSettingsDialog)
        requires
            self.selected < 6,
        ensures
            chat_field_edited(self, c, post),
    {
        let mut dialog = self;
        let index = dialog.selected;
        let mut field = dialog.fields[index].clone();
        match c {
            Some(ch) => push_char(&mut field, ch),
            None => {
                pop_char(&mut field);
            },
        }
        dialog.fields.set(index, field);
        ChatSettingsDialog { error: None, ..dialog }
    }

    /// What `code` does to the dialog.
    pub fn key(self, code: KeyCode) -> (outcome: ChatSettingsKey)
        ensures
            chat_settings_key(self, code, outcome),
    {
        match code {
            KeyCode::Esc => return ChatSettingsKey::Close,
            KeyCode::Char(c) => {
                if c == 'x' || c == 'X' {
                    return ChatSettingsKey::Close;
                }
            },
            _ => {},
        }
        if self.status != ChatSettingsStatus::Editing {
            return ChatSettingsKey::Ignore(self);
        }
        match code {
            KeyCode::Enter => ChatSettingsKey::Apply(self),
            KeyCode::Up => {
                let selected = if self.selected > 0 { self.selected - 1 } else { 0 };
                ChatSettingsKey::Edit(ChatSettingsDialog { selected, ..self })
            },
            KeyCode::Down | KeyCode::Tab => {
                let selected = if self.selected < 5 { self.selected + 1 } else { 5 };
                ChatSettingsKey::Edit(ChatSettingsDialog { selected, ..self })
            },
            KeyCode::Backspace => {
                if self.selected < 6 {
                    ChatSettingsKey::Edit(self.edited(None))
                } else {
                    ChatSettingsKey::Ignore(self)
                }
            },
            KeyCode::Char(c) => {
                if c == 's' || c == 'S' {
                    let save_default = !self.save_default;
                    ChatSettingsKey::Edit(ChatSettingsDialog { save_default, ..self })
                } else if (('0' <= c && c <= '9') || c == '.') && self.selected < 6 {
                    ChatSettingsKey::Edit(self.edited(Some(c)))
                } else {
                    ChatSettingsKey::Ignore(self)
                }
            },
            _ => ChatSettingsKey::Ignore(self),
        }
    }
}

/// The model that chat talks to: the loaded model at the chat selection.
pub open spec fn chat_model(app: App) -> Option<ModelInfo> {
    if app.chat_model_index < app.models@.len() {
        Some(app.models@[app.chat_model_index as int])
    } else {
        None
    }
}

/// Whether the saved parameters belong to `model`.
pub open spec fn parameters_for(app: App, model: Seq<char>) -> bool {
    app.chat_parameters is Some && app.chat_parameters->0.model@ == model
}

/// `request` with the saved parameters applied, when they belong to its model.
pub open spec fn parameters_applied(app: App, pre: GenerateRequest, post: GenerateRequest) -> bool {
    if parameters_for(app, pre.model@) {
        let p = app.chat_parameters->0;
        post == GenerateRequest {
            max_tokens: Some(p.max_tokens),
            temperature: Some(p.temperature),
            top_p: Some(p.top_p),
            top_k: Some(p.top_k),
            repetition_penalty: Some(p.repetition_penalty),
            seed: p.seed,
            ..pre
        }
    } else {
        post == pre
    }
}

/// `app` after opening the chat parameter dialog for the chat model: on the saved parameters
/// when they belong to it, else waiting for the model's defaults, which `command` asks for.
pub open spec fn chat_settings_opened(pre: App, post: App, command: Option<Command>) -> bool {
    match chat_model(pre) {
        None => command is None && post == (App { chat_error: post.chat_error, ..pre }) && (
        post.chat_error matches Some(m) && m@ == "load a model before configuring chat"@),
        Some(model) => if parameters_for(pre, model.id@) {
            command is None && post == (App { chat_settings_dialog: post.chat_settings_dialog, ..pre })
                && (post.chat_settings_dialog matches Some(d) && editing_parameters(
                d,
                pre.chat_parameters->0,
            ))
        } else {
            command == Some(Command::InspectChatSettings { selector: model.id }) && post == (App {
                chat_settings_dialog: post.chat_settings_dialog,
                chat_settings_pending: true,
                ..pre
            }) && (post.chat_settings_dialog matches Some(d) && waiting_for_defaults(d, model.id))
        },
    }
}

/// `app` after the chat parameter dialog took `event`.
pub open spec fn chat_settings_answered(pre: App, event: ChatSettingsEvent, post: App) -> bool {
    match event {
        ChatSettingsEvent::Inspected(response) => match response.settings {
            None => chat_settings_failed(pre, "server returned no model settings"@, post),
            Some(settings) => match pre.chat_settings_dialog {
                Some(d) => {
                    &&& post == App { chat_settings_dialog: post.chat_settings_dialog, chat_settings_pending: false, ..pre }
                    &&& post.chat_settings_dialog matches Some(e)
                    &&& e == ChatSettingsDialog { fields: e.fields, persisted: response.has_mirmir_overrides, status: ChatSettingsStatus::Editing, error: None, ..d }
                    &&& shows_settings(e.fields, settings, None)
                },
                None => post == App { chat_settings_pending: false, ..pre },
            },
        },
        ChatSettingsEvent::Saved { model_id } => {
            &&& post == App { chat_error: post.chat_error, chat_settings_dialog: None, chat_settings_pending: false, ..pre }
            &&& post.chat_error matches Some(m) && m@ == "defaults saved for "@ + model_id@
        },
    }
}

/// `app` after a chat settings request failed with `error`: an open dialog shows it and stays
/// editable, and no request is in flight.
pub open spec fn chat_settings_failed(pre: App, error: Seq<char>, post: App) -> bool {
    match pre.chat_settings_dialog {
        Some(d) => {
            &&& post == App { chat_settings_dialog: post.chat_settings_dialog, chat_settings_pending: false, ..pre }
            &&& post.chat_settings_dialog matches Some(e)
            &&& e == ChatSettingsDialog { status: ChatSettingsStatus::Editing, error: e.error, ..d }
            &&& e.error matches Some(m)
            &&& m@ == error
        },
        None => post == App { chat_settings_pending: false, ..pre },
    }
}

/// `app` after a key on the chat parameter dialog.
pub open spec fn chat_settings_key_handled(pre: App, code: KeyCode, post: App, command: Option<Command>) -> bool {
    &&& (match pre.chat_settings_dialog {
        None => command is None && post == pre,
        Some(d) => exists|outcome: ChatSettingsKey|
            #![trigger chat_settings_key(d, code, outcome)]
            chat_settings_key(d, code, outcome) && match outcome {
                ChatSettingsKey::Close => command is None && post == (App {
                    chat_settings_dialog: None,
                    chat_settings_pending: false,
                    ..pre
                }),
                ChatSettingsKey::Apply(_) => command == Some(Command::ApplyChatSettings)
                    && post == pre,
                ChatSettingsKey::Ignore(_) => command is None && post == pre,
                ChatSettingsKey::Edit(e) => command is None && post == (App {
                    chat_settings_dialog: Some(e),
                    ..pre
                }),
            },
    })
}

impl App {
    /// The model that chat talks to.
    pub fn selected_chat_model(&self) -> (model: Option<&ModelInfo>)
        ensures
            match model {
                Some(m) => chat_model(*self) == Some(*m),
                None => chat_model(*self) is None,
            },
    {
        if self.chat_model_index < self.models.len() {
            Some(&self.models[self.chat_model_index])
        } else {
            None
        }
    }

    /// Opens the chat parameter dialog for the chat model: on the saved parameters when they
    /// belong to it, else waiting for the model's defaults, which it asks for.
    pub fn open_chat_settings(&mut self) -> (command: Option<Command>)
        ensures
            chat_settings_opened(*old(self), *final(self), command),
    {
        let model = match self.selected_chat_model() {
            Some(model) => model.id.clone(),
            None => {
                self.chat_error = Some("load a model before configuring chat".to_owned());
                return None;
            },
        };
        let reuse = match &self.chat_parameters {
            Some(p) => equals(p.model.as_str(), model.as_str()),
            None => false,
        };
        if reuse {
            let dialog = match &self.chat_parameters {
                Some(p) => ChatSettingsDialog::from_parameters(p),
                None => return None,
            };
            self.chat_settings_dialog = Some(dialog);
            return None;
        }
        let dialog = ChatSettingsDialog::inspecting(model.clone());
        self.chat_settings_dialog = Some(dialog);
        self.chat_settings_pending = true;
        Some(Command::InspectChatSettings { selector: model })
    }

    /// Keys of the chat parameter dialog: `x` or Esc closes it and drops its request, Enter
    /// asks to apply the parameters, `s` toggles saving them as the model's defaults, the
    /// arrows and Tab move between fields, digits, `.` and Backspace edit the field.
    pub fn handle_chat_settings_key(&mut self, code: KeyCode) -> (command: Option<Command>)
        ensures
            chat_settings_key_handled(*old(self), code, *final(self), command),
    {
        let dialog = match self.chat_settings_dialog.take() {
            Some(d) => d,
            None => return None,
        };
        let outcome = dialog.key(code);
        proof {
            assert(chat_settings_key(old(self).chat_settings_dialog->0, code, outcome));
        }
        match outcome {
            ChatSettingsKey::Ignore(d) => {
                self.chat_settings_dialog = Some(d);
                None
            },
            ChatSettingsKey::Close => {
                self.chat_settings_pending = false;
                None
            },
            ChatSettingsKey::Apply(d) => {
                self.chat_settings_dialog = Some(d);
                Some(Command::ApplyChatSettings)
            },
            ChatSettingsKey::Edit(e) => {
                self.chat_settings_dialog = Some(e);
                None
            },
        }
    }

    /// Applies the saved parameters to `request` when they belong to its model.
    pub fn apply_chat_parameters(&self, request: &mut GenerateRequest)
        ensures
            parameters_applied(*self, *old(request), *final(request)),
    {
        let p = match &self.chat_parameters {
            Some(p) => p,
            None => return,
        };
        if !equals(p.model.as_str(), request.model.as_str()) {
            return;
        }
        request.max_tokens = Some(p.max_tokens);
        request.temperature = Some(p.temperature.clone());
        request.top_p = Some(p.top_p.clone());
        request.top_k = Some(p.top_k);
        request.repetition_penalty = Some(p.repetition_penalty.clone());
        request.seed = p.seed;
    }

    /// Takes the runtime's answer to the chat settings request: the model's defaults fill the
    /// dialog, a save closes it and says so; the request is then over.
    pub fn apply_chat_settings_event(&mut self, event: ChatSettingsEvent)
        ensures
            chat_settings_answered(*old(self), event, *final(self)),
    {
        match event {
            ChatSettingsEvent::Inspected(response) => {
                let settings = match &response.settings {
                    Some(settings) => settings,
                    None => {
                        self.fail_chat_settings("server returned no model settings".to_owned());
                        return;
                    },
                };
                let fields = settings_fields(settings, None);
                self.chat_settings_pending = false;
                match self.chat_settings_dialog.take() {
                    Some(d) => {
                        self.chat_settings_dialog = Some(
                            ChatSettingsDialog {
                                fields,
                                persisted: response.has_mirmir_overrides,
                                status: ChatSettingsStatus::Editing,
                                error: None,
                                ..d
                            },
                        );
                    },
                    None => {},
                }
            },
            ChatSettingsEvent::Saved { model_id } => {
                self.chat_error = Some(join("defaults saved for ", model_id.as_str()));
                self.chat_settings_dialog = None;
                self.chat_settings_pending = false;
            },
        }
    }

    /// The chat settings request failed with `error`, or ended without an answer: an open
    /// dialog shows the error and stays editable.
    pub fn fail_chat_settings(&mut self, error: String)
        ensures
            chat_settings_failed(*old(self), error@, *final(self)),
    {
        self.chat_settings_pending = false;
        match self.chat_settings_dialog.take() {
            Some(d) => {
                self.chat_settings_dialog = Some(
                    ChatSettingsDialog { status: ChatSettingsStatus::Editing, error: Some(error), ..d },
                );
            },
            None => {},
        }
    }

    /// Applies the dialog's parameters to later chat requests of its model; `reals` holds what
    /// its real-valued fields read as. Where the dialog should save them as the model's
    /// defaults it asks for that and waits, else it closes; an invalid field is shown instead.
    pub fn apply_chat_settings(&mut self, reals: &RealFields) -> (command: Option<Command>)
        ensures
            match old(self).chat_settings_dialog {
                None => command is None && *final(self) == *old(self),
                Some(d) => exists|result: Result<ChatParameters, String>|
                    #![trigger parameters_of(d, *reals, result)]
                    parameters_of(d, *reals, result) && match result {
                        Err(e) => command is None && *final(self) == (App {
                            chat_settings_dialog: Some(
                                ChatSettingsDialog {
                                    status: ChatSettingsStatus::Editing,
                                    error: Some(e),
                                    ..d
                                },
                            ),
                            ..*old(self)
                        }),
                        Ok(p) => if d.save_default {
                            command == Some(Command::SaveChatDefaults(p)) && *final(self) == (App {
                                chat_parameters: Some(p),
                                chat_settings_dialog: Some(
                                    ChatSettingsDialog {
                                        status: ChatSettingsStatus::Saving,
                                        error: None,
                                        ..d
                                    },
                                ),
                                chat_settings_pending: true,
                                ..*old(self)
                            })
                        } else {
                            command is None && *final(self) == (App {
                                chat_parameters: Some(p),
                                chat_settings_dialog: None,
                                ..*old(self)
                            })
                        },
                    },
            },
    {
        let d = match self.chat_settings_dialog.take() {
            Some(d) => d,
            None => return None,
        };
        let result = d.parameters(reals);
        proof {
            assert(parameters_of(d, *reals, result));
        }
        match result {
            Err(e) => {
                self.chat_settings_dialog = Some(
                    ChatSettingsDialog { status: ChatSettingsStatus::Editing, error: Some(e), ..d },
                );
                None
            },
            Ok(p) => {
                self.chat_parameters = Some(p.copied());
                if d.save_default {
                    self.chat_settings_dialog = Some(
                        ChatSettingsDialog { status: ChatSettingsStatus::Saving, error: None, ..d },
                    );
                    self.chat_settings_pending = true;
                    Some(Command::SaveChatDefaults(p))
                } else {
                    None
                }
            },
        }
    }
}


/// A dialog opened on valid parameters gives the same parameters back, when its real-valued
/// fields read as the spellings that the dialog shows: the integers are spelled in decimal and
/// read back, and an absent seed is an empty field.
pub proof fn lemma_parameters_round_trip(parameters: ChatParameters, dialog: ChatSettingsDialog, reals: RealFields)
    requires
        editing_parameters(dialog, parameters),
        parameters.max_tokens > 0,
        reals.temperature == Some(parameters.temperature),
        reals.top_p == Some(parameters.top_p),
        reals.repetition_penalty == Some(parameters.repetition_penalty),
        reals.temperature_valid,
        reals.top_p_valid,
        reals.repetition_penalty_positive,
    ensures
        parameters_error(dialog.fields, reals) is None,
        parameters_of(dialog, reals, Ok(parameters)),
        forall|result: Result<ChatParameters, String>|
            parameters_of(dialog, reals, result) ==> result == Ok::<ChatParameters, String>(parameters),
{
    lemma_decimal_parses(parameters.max_tokens);
    lemma_decimal_parses(parameters.top_k);
    match parameters.seed {
        Some(seed) => {
            lemma_decimal_parses(seed);
            crate::text::lemma_decimal_digits(seed as nat);
        },
        None => {},
    }
}


/// The dialog yields parameters only when every field reads and every value lies where the
/// runtime accepts it: max tokens above zero, a finite non-negative temperature, top p
/// between 0 and 1 and a positive repetition penalty. A dialog whose fields all read but whose
/// temperature does not lie there, while the other values do, is refused with the message
/// that says so.
pub proof fn lemma_parameters_need_valid_values(dialog: ChatSettingsDialog, reals: RealFields, result: Result<ChatParameters, String>)
    requires
        parameters_of(dialog, reals, result),
    ensures
        result is Ok ==> {
            &&& parsed_u64(dialog.fields[0]@) matches Some(n) && n > 0
            &&& reals.temperature is Some && reals.temperature_valid
            &&& reals.top_p is Some && reals.top_p_valid
            &&& parsed_u64(dialog.fields[3]@) is Some
            &&& reals.repetition_penalty is Some && reals.repetition_penalty_positive
            &&& (dialog.fields[5]@.len() == 0 || parsed_u64(dialog.fields[5]@) is Some)
        },
        ({
            &&& parsed_u64(dialog.fields[0]@) matches Some(n) && n > 0
            &&& reals.temperature is Some && !reals.temperature_valid
            &&& reals.top_p is Some
            &&& parsed_u64(dialog.fields[3]@) is Some
            &&& reals.repetition_penalty is Some && reals.repetition_penalty_positive
            &&& (dialog.fields[5]@.len() == 0 || parsed_u64(dialog.fields[5]@) is Some)
        }) ==> (result matches Err(e) && e@ == "temperature must be finite and non-negative"@),
{
}

} // verus!
