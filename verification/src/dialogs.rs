//! The dashboard's dialogs: model removal, model load, chat parameters, configuration edit.
use vstd::prelude::*;

use crate::records::{
    ModelLifecycleEvent, ModelMemoryEstimate, ModelTaskCapabilities,
};

verus! {

/// The confirmation before a model's cached files are deleted.
#[derive(Debug, Clone, Default)]
pub struct RemoveDialog {
    pub id: String,
    pub repo_id: String,
    pub path: String,
    pub source: String,
}

/// Where the load dialog is in its life.
#[derive(Debug, Clone, Copy, PartialEq, Eq, Structural)]
pub enum LoadStatus {
    Inspecting,
    Editing,
    Loading,
}

/// The model that a load dialog will load.
#[derive(Debug, Clone, Default)]
pub struct LoadTarget {
    pub selector: String,
    pub config_id: String,
    pub repo_id: String,
    pub revision: String,
    pub commit: String,
}

/// Position of a restored model among all models being restored.
#[derive(Debug, Clone, Copy, PartialEq, Eq, Structural)]
pub struct RestorePosition {
    pub current: usize,
    pub total: usize,
}

/// Number of editable load settings.
pub const FIELD_COUNT: usize = 5;

/// The dialog that inspects a model, lets its generation settings be edited, and loads it.
#[derive(Debug, Clone)]
pub struct LoadDialog {
    pub target: LoadTarget,
    pub task: String,
    pub capabilities: Option<ModelTaskCapabilities>,
    pub status: LoadStatus,
    pub fields: [String; 5],
    pub selected: usize,
    pub has_mirmir_overrides: bool,
    pub memory: Option<ModelMemoryEstimate>,
    pub force: bool,
    pub progress: Option<ModelLifecycleEvent>,
    pub error: Option<String>,
    pub restore: Option<RestorePosition>,
}

/// Number of editable chat parameters.
pub const CHAT_FIELD_COUNT: usize = 6;

/// Where the chat parameter dialog is in its life.
#[derive(Debug, Clone, Copy, PartialEq, Eq, Structural)]
pub enum ChatSettingsStatus {
    Inspecting,
    Editing,
    Saving,
}

/// The dialog that edits one-off generation parameters of the chat model.
#[derive(Debug, Clone)]
pub struct ChatSettingsDialog {
    pub model: String,
    pub fields: [String; 6],
    pub selected: usize,
    pub save_default: bool,
    pub persisted: bool,
    pub status: ChatSettingsStatus,
    pub error: Option<String>,
}

/// The setting that a configuration edit changes.
#[derive(Debug, Clone)]
pub enum ConfigurationTarget {
    Value(String),
    HuggingFaceToken,
    HttpApiKey,
}

/// A configuration value being typed.
#[derive(Debug, Clone)]
pub struct ConfigurationEdit {
    pub target: ConfigurationTarget,
    pub input: String,
}

impl ConfigurationEdit {
    /// Whether the edited value is a secret, whose input is masked.
    pub fn secret(&self) -> (secret: bool)
        ensures
            secret == (self.target is HuggingFaceToken || self.target is HttpApiKey),
    {
        match self.target {
            ConfigurationTarget::HuggingFaceToken | ConfigurationTarget::HttpApiKey => true,
            ConfigurationTarget::Value(_) => false,
        }
    }
}

impl ChatSettingsDialog {
    /// A dialog for `model` that waits for the model's defaults.
    pub fn inspecting(model: String) -> (dialog: ChatSettingsDialog)
        ensures
            dialog.model == model,
            forall|i: int| 0 <= i < 6 ==> (#[trigger] dialog.fields[i])@.len() == 0,
            dialog.selected == 0,
            !dialog.save_default,
            !dialog.persisted,
            dialog.status == ChatSettingsStatus::Inspecting,
            dialog.error is None,
    {
        ChatSettingsDialog {
            model,
            fields: [String::new(), String::new(), String::new(), String::new(), String::new(), String::new()],
            selected: 0,
            save_default: false,
            persisted: false,
            status: ChatSettingsStatus::Inspecting,
            error: None,
        }
    }
}

} // verus!
