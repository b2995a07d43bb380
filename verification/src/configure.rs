//! The settings screen: choosing a value, editing it, and the changes sent to the runtime.
use vstd::prelude::*;

use crate::app::{App, Command, ConfigurationOperation};
use crate::dialogs::{ConfigurationEdit, ConfigurationTarget};
use crate::input::{KeyCode, KeyEvent};
use crate::lists::configuration_count;
use crate::records::{ConfigurationValue, UpdateConfigurationResponse};
use crate::text::{equals, join, pop_char, push_char};

verus! {

/// Position of the first configuration value with key `key`.
pub open spec fn first_value_with_key(values: Seq<ConfigurationValue>, key: Seq<char>) -> Option<int> {
    if exists|i: int|
        0 <= i < values.len() && (#[trigger] values[i]).key@ == key && forall|j: int|
            0 <= j < i ==> values[j].key@ != key {
        let i = choose|i: int|
            0 <= i < values.len() && (#[trigger] values[i]).key@ == key && forall|j: int|
                0 <= j < i ==> values[j].key@ != key;
        Some(i)
    } else {
        None
    }
}

/// The edit that Enter opens on setting `selected`: the two secrets start empty, an editable
/// value starts with the current value of the first value under its key; a read-only or
/// missing value opens nothing.
pub open spec fn edit_for(app: App, selected: int) -> Option<(ConfigurationTarget, Seq<char>)> {
    if selected == 0 {
        Some((ConfigurationTarget::HuggingFaceToken, Seq::empty()))
    } else if selected == 1 {
        Some((ConfigurationTarget::HttpApiKey, Seq::empty()))
    } else {
        match app.configuration {
            Some(config) => if selected - 2 < config.values@.len() && config.values@[selected
                - 2].editable {
                let key = config.values@[selected - 2].key;
                let first = first_value_with_key(config.values@, key@);
                Some((ConfigurationTarget::Value(key), config.values@[first->0].value@))
            } else {
                None
            },
            None => None,
        }
    }
}

/// The change that submitting `edit` sends: the typed text as the value or secret.
pub open spec fn submitted(edit: ConfigurationEdit, operation: ConfigurationOperation) -> bool {
    match edit.target {
        ConfigurationTarget::Value(key) => operation matches ConfigurationOperation::SetValue {
            key: k,
            value,
        } && k == key && value == edit.input,
        ConfigurationTarget::HuggingFaceToken => operation matches ConfigurationOperation::SetHfToken {
            token,
        } && token == edit.input,
        ConfigurationTarget::HttpApiKey => operation matches ConfigurationOperation::SetHttpApiKey {
            key,
        } && key == edit.input,
    }
}

/// What a key does to an open configuration edit: Esc closes it, Backspace deletes the last
/// character, a character is appended, Enter closes it and sends its change.
pub open spec fn edit_key_step(
    edit: ConfigurationEdit,
    code: KeyCode,
    next: Option<ConfigurationEdit>,
    command: Option<Command>,
) -> bool {
    match code {
        KeyCode::Esc => next is None && command is None,
        KeyCode::Backspace => command is None && (next matches Some(e) && e.target == edit.target
            && e.input@ == (if edit.input@.len() > 0 {
            edit.input@.drop_last()
        } else {
            edit.input@
        })),
        KeyCode::Char(c) => command is None && (next matches Some(e) && e.target == edit.target
            && e.input@ == edit.input@.push(c)),
        KeyCode::Enter => next is None && (command matches Some(Command::UpdateConfiguration(operation))
            && submitted(edit, operation)),
        _ => next == Some(edit) && command is None,
    }
}

/// The change that tests the Hugging Face token.
pub fn test_hf_token() -> (operation: ConfigurationOperation)
    ensures
        operation is TestHfToken,
{
    ConfigurationOperation::TestHfToken
}

/// The change that removes the Hugging Face token.
pub fn remove_hf_token() -> (operation: ConfigurationOperation)
    ensures
        operation is RemoveHfToken,
{
    ConfigurationOperation::RemoveHfToken
}

/// The change that removes the HTTP API key.
pub fn remove_http_api_key() -> (operation: ConfigurationOperation)
    ensures
        operation is RemoveHttpApiKey,
{
    ConfigurationOperation::RemoveHttpApiKey
}

/// `app` after a key while a configuration value is typed.
pub open spec fn configuration_edit_handled(pre: App, key: KeyEvent, post: App, command: Option<Command>) -> bool {
    &&& (post == (App { configuration_edit: post.configuration_edit, ..pre }))
    &&& (edit_key_step(pre.configuration_edit->0, key.code, post.configuration_edit, command))
}

/// `app` after a key on the settings screen: the arrows move the selection, Enter edits the
/// selected setting, `t` tests the Hugging Face token and `r` removes the selected secret.
pub open spec fn configuration_key_handled(pre: App, key: KeyEvent, post: App, command: Option<Command>) -> bool {
    if key.code == KeyCode::Up {
        command is None && configuration_moved_back(pre, post)
    } else if key.code == KeyCode::Down {
        command is None && configuration_moved_on(pre, post)
    } else if key.code == KeyCode::Enter {
        command is None && configuration_edit_begun(pre, post)
    } else if key.code == KeyCode::Char('t') && pre.configuration_selected == 0 {
        post == pre && (command matches Some(Command::UpdateConfiguration(operation))
            && operation is TestHfToken)
    } else if key.code == KeyCode::Char('r') && pre.configuration_selected == 0 {
        post == pre && (command matches Some(Command::UpdateConfiguration(operation))
            && operation is RemoveHfToken)
    } else if key.code == KeyCode::Char('r') && pre.configuration_selected == 1 {
        post == pre && (command matches Some(Command::UpdateConfiguration(operation))
            && operation is RemoveHttpApiKey)
    } else {
        command is None && post == pre
    }
}

/// `app` with the previous setting selected, wrapping from the first to the last.
pub open spec fn configuration_moved_back(pre: App, post: App) -> bool {
    &&& (post == (App {
        configuration_selected: (if pre.configuration_selected > 0 {
            pre.configuration_selected - 1
        } else if configuration_count(pre) > 0 {
            configuration_count(pre) - 1
        } else {
            0
        }) as usize,
        ..pre
    }))
}

/// `app` with the next setting selected, wrapping from the last to the first.
pub open spec fn configuration_moved_on(pre: App, post: App) -> bool {
    &&& (post == (App {
        configuration_selected: (if configuration_count(pre) > 0 {
            (pre.configuration_selected + 1) % configuration_count(pre)
        } else {
            pre.configuration_selected as int
        }) as usize,
        ..pre
    }))
}

/// `app` after Enter on the settings screen: the selected setting is being edited, or the
/// message says that it is read-only.
pub open spec fn configuration_edit_begun(pre: App, post: App) -> bool {
    &&& (edit_for(pre, pre.configuration_selected as int) matches Some(e) ==> {
        &&& (post.configuration_edit matches Some(edit) && edit.target == e.0
            && edit.input@ == e.1)
        &&& post == (App {
            configuration_edit: post.configuration_edit,
            configuration_message: None,
            ..pre
        })
    })
    &&& (edit_for(pre, pre.configuration_selected as int) is None ==> {
        &&& (post.configuration_message matches Some(m) && m@
            == "selected value is read-only"@)
        &&& post == (App {
            configuration_message: post.configuration_message,
            ..pre
        })
    })
}

impl App {
    /// Selects the previous setting, wrapping from the first to the last.
    pub fn previous_configuration(&mut self)
        ensures
            configuration_moved_back(*old(self), *final(self)),
    {
        let count = self.configuration_count();
        self.configuration_selected = if self.configuration_selected > 0 {
            self.configuration_selected - 1
        } else if count > 0 {
            count - 1
        } else {
            0
        };
    }

    /// Selects the next setting, wrapping from the last to the first.
    pub fn next_configuration(&mut self)
        ensures
            configuration_moved_on(*old(self), *final(self)),
    {
        let count = self.configuration_count();
        if count > 0 {
            let next = ((self.configuration_selected as u128 + 1) % (count as u128)) as usize;
            self.configuration_selected = next;
        }
    }

    /// Position of the first configuration value with key `key`.
    fn find_value(values: &Vec<ConfigurationValue>, key: &str) -> (found: Option<usize>)
        ensures
            found == (match first_value_with_key(values@, key@) {
                Some(i) => Some(i as usize),
                None => None,
            }),
            found is None ==> forall|j: int| 0 <= j < values@.len() ==> values@[j].key@ != key@,
    {
        let mut i: usize = 0;
        while i < values.len()
            invariant
                i <= values@.len(),
                forall|j: int| 0 <= j < i ==> values@[j].key@ != key@,
            decreases values@.len() - i,
        {
            if equals(values[i].key.as_str(), key) {
                proof {
                    assert(0 <= i < values@.len() && (values@[i as int]).key@ == key@ && forall|j: int|
                        0 <= j < i ==> values@[j].key@ != key@);
                    let c = choose|c: int|
                        0 <= c < values@.len() && (#[trigger] values@[c]).key@ == key@ && forall|j: int|
                            0 <= j < c ==> values@[j].key@ != key@;
                    assert(c == i);
                }
                return Some(i);
            }
            i += 1;
        }
        None
    }

    /// The edit that Enter opens on the selected setting, if it can be edited.
    pub fn configuration_edit_for_selection(&self) -> (edit: Option<ConfigurationEdit>)
        ensures
            edit_for(*self, self.configuration_selected as int) matches Some(e) ==> (edit matches Some(
                found,
            ) && found.target == e.0 && found.input@ == e.1),
            edit_for(*self, self.configuration_selected as int) is None ==> edit is None,
    {
        let selected = self.configuration_selected;
        if selected == 0 {
            return Some(
                ConfigurationEdit { target: ConfigurationTarget::HuggingFaceToken, input: String::new() },
            );
        }
        if selected == 1 {
            return Some(
                ConfigurationEdit { target: ConfigurationTarget::HttpApiKey, input: String::new() },
            );
        }
        match &self.configuration {
            Some(config) => {
                if selected - 2 < config.values.len() && config.values[selected - 2].editable {
                    let key = config.values[selected - 2].key.clone();
                    let first = Self::find_value(&config.values, key.as_str());
                    proof {
                        assert(config.values@[selected - 2].key@ == key@);
                    }
                    let input = match first {
                        Some(i) => config.values[i].value.clone(),
                        None => String::new(),
                    };
                    Some(ConfigurationEdit { target: ConfigurationTarget::Value(key), input })
                } else {
                    None
                }
            },
            None => None,
        }
    }

    /// Enter on a setting opens its edit, or says that it is read-only.
    pub fn begin_configuration_edit(&mut self)
        ensures
            configuration_edit_begun(*old(self), *final(self)),
    {
        match self.configuration_edit_for_selection() {
            Some(edit) => {
                self.configuration_edit = Some(edit);
                self.configuration_message = None;
            },
            None => {
                self.configuration_message = Some("selected value is read-only".to_owned());
            },
        }
    }

    /// Typing into an open configuration edit: Esc cancels, Backspace deletes, characters
    /// append, Enter submits the change.
    pub fn handle_configuration_edit(&mut self, key: KeyEvent) -> (command: Option<Command>)
        requires
            old(self).configuration_edit is Some,
        ensures
            configuration_edit_handled(*old(self), key, *final(self), command),
    {
        let edit = self.configuration_edit.take().unwrap();
        let (next, command) = Self::edit_key(edit, key.code);
        self.configuration_edit = next;
        command
    }

    /// One key typed into a configuration edit.
    pub fn edit_key(edit: ConfigurationEdit, code: KeyCode) -> (step: (Option<ConfigurationEdit>, Option<Command>))
        ensures
            edit_key_step(edit, code, step.0, step.1),
    {
        match code {
            KeyCode::Esc => (None, None),
            KeyCode::Backspace => (Some(Self::edit_backspace(edit)), None),
            KeyCode::Char(c) => (Some(Self::edit_push(edit, c)), None),
            KeyCode::Enter => (None, Some(Command::UpdateConfiguration(Self::submission(edit)))),
            _ => (Some(edit), None),
        }
    }

    fn edit_backspace(edit: ConfigurationEdit) -> (next: ConfigurationEdit)
        ensures
            next.target == edit.target,
            next.input@ == (if edit.input@.len() > 0 {
                edit.input@.drop_last()
            } else {
                edit.input@
            }),
    {
        let ConfigurationEdit { target, mut input } = edit;
        pop_char(&mut input);
        ConfigurationEdit { target, input }
    }

    fn edit_push(edit: ConfigurationEdit, c: char) -> (next: ConfigurationEdit)
        ensures
            next.target == edit.target,
            next.input@ == edit.input@.push(c),
    {
        let ConfigurationEdit { target, mut input } = edit;
        push_char(&mut input, c);
        ConfigurationEdit { target, input }
    }

    fn submission(edit: ConfigurationEdit) -> (operation: ConfigurationOperation)
        ensures
            submitted(edit, operation),
    {
        match edit.target {
            ConfigurationTarget::Value(key) => ConfigurationOperation::SetValue {
                key,
                value: edit.input,
            },
            ConfigurationTarget::HuggingFaceToken => ConfigurationOperation::SetHfToken {
                token: edit.input,
            },
            ConfigurationTarget::HttpApiKey => ConfigurationOperation::SetHttpApiKey {
                key: edit.input,
            },
        }
    }

    /// Keys of the settings screen: arrows move, Enter edits, `t` tests the Hugging Face
    /// token, `r` removes the selected secret.
    pub fn handle_configuration_key(&mut self, key: KeyEvent) -> (command: Option<Command>)
        ensures
            configuration_key_handled(*old(self), key, *final(self), command),
    {
        match key.code {
            KeyCode::Up => {
                self.previous_configuration();
                None
            },
            KeyCode::Down => {
                self.next_configuration();
                None
            },
            KeyCode::Enter => {
                self.begin_configuration_edit();
                None
            },
            KeyCode::Char(c) => {
                if c == 't' && self.configuration_selected == 0 {
                    Some(Command::UpdateConfiguration(test_hf_token()))
                } else if c == 'r' && self.configuration_selected == 0 {
                    Some(Command::UpdateConfiguration(remove_hf_token()))
                } else if c == 'r' && self.configuration_selected == 1 {
                    Some(Command::UpdateConfiguration(remove_http_api_key()))
                } else {
                    None
                }
            },
            _ => None,
        }
    }

    /// Takes the server's answer to a configuration change: the new configuration and its
    /// message, noting when a restart is needed; an error becomes the message.
    pub fn apply_configuration_update(&mut self, result: Result<UpdateConfigurationResponse, String>)
        ensures
            result is Ok ==> {
                &&& *final(self) == (App {
                    configuration: result->Ok_0.configuration,
                    configuration_message: final(self).configuration_message,
                    ..*old(self)
                })
                &&& (final(self).configuration_message matches Some(m) && m@ == (if result->Ok_0.restart_required {
                    result->Ok_0.message@ + "; restart required"@
                } else {
                    result->Ok_0.message@
                }))
            },
            result matches Err(error) ==> *final(self) == (App {
                configuration_message: Some(error),
                ..*old(self)
            }),
    {
        match result {
            Ok(response) => {
                self.configuration = response.configuration;
                self.configuration_message = Some(if response.restart_required {
                    join(response.message.as_str(), "; restart required")
                } else {
                    response.message
                });
            },
            Err(error) => self.configuration_message = Some(error),
        }
    }
}

} // verus!
