//! The dashboard's state, and the commands that its decisions hand to the runtime client.
use vstd::prelude::*;

use crate::chat_settings::ChatParameters;
use crate::dialogs::{ChatSettingsDialog, ConfigurationEdit, LoadDialog, RemoveDialog};
use crate::records::{
    ActivityEvent, AttachedImage, CatalogModel, ConfigurationSnapshot, GenerateRequest,
    LoadModelRequest, LocalModelInfo, Message, ModelInfo,
};
use crate::screen::{CatalogFilter, Screen};
use crate::viewport::ListView;

verus! {

/// Whether the exit confirmation is open.
#[derive(Debug, Clone, Copy, Default, PartialEq, Eq, Structural)]
pub struct NavigationState {
    pub exit_dialog: bool,
}

/// Whether a chat generation is streaming.
#[derive(Debug, Clone, Copy, PartialEq, Eq, Structural)]
pub enum ChatStatus {
    Idle,
    Generating,
}

/// Whether the model's reasoning is shown in full or as one line.
#[derive(Debug, Clone, Copy, PartialEq, Eq, Structural)]
pub enum ReasoningView {
    Collapsed,
    Expanded,
}

/// How the settings screen shows the configuration.
#[derive(Debug, Clone, Copy, PartialEq, Eq, Structural)]
pub enum ConfigurationView {
    Table,
    Raw,
}

/// Whether the first runtime snapshot has arrived.
#[derive(Debug, Clone, Copy, PartialEq, Eq, Structural)]
pub enum InitialRefresh {
    Pending,
    Complete,
}

/// Whether a benchmark runs.
#[derive(Debug, Clone, Copy, PartialEq, Eq, Structural)]
pub enum BenchmarkStatus {
    Idle,
    Running,
}

/// The benchmark's prompt and run settings, and the progress of the current run.
#[derive(Debug, Clone)]
pub struct BenchmarkControls {
    pub prompt: String,
    pub warmup: usize,
    pub samples: usize,
    pub completed: usize,
    pub phase: String,
    pub status: BenchmarkStatus,
    pub model_index: usize,
    pub error: Option<String>,
    pub operation_id: Option<String>,
    pub running_model: String,
}

/// One change of the runtime configuration.
#[derive(Debug, Clone)]
pub enum ConfigurationOperation {
    SetValue { key: String, value: String },
    SetHfToken { token: String },
    SetHttpApiKey { key: String },
    TestHfToken,
    RemoveHfToken,
    RemoveHttpApiKey,
}

/// A request that the dashboard hands to the runtime client; its answer comes back as an event.
#[derive(Debug, Clone)]
pub enum Command {
    UnloadModel { selector: String },
    CancelOperation { operation_id: String },
    UpdateConfiguration(ConfigurationOperation),
    SearchModels { query: String, limit: u64, append: bool, cursor: Option<String> },
    InspectModel { selector: String },
    InspectChatSettings { selector: String },
    LoadModel(LoadModelRequest),
    PullModel { repo_id: String },
    RemoveModel { repo_id: String },
    Generate(GenerateRequest),
    ApplyChatSettings,
    SaveChatDefaults(ChatParameters),
    ClearChatMetrics,
    ListActiveModels,
    ConfirmLoad,
    AdjustLoadSetting { direction: i8 },
    AttachImage { path: String },
    StartBenchmark { request: GenerateRequest, warmup: usize, samples: usize },
    ExportBenchmark,
}

/// The whole dashboard state. Requests in flight are marked by the `*_pending` flags and by
/// `pending_removal`; the client that carries them lives outside the library.
#[derive(Debug)]
pub struct App {
    pub screen: Screen,
    pub navigation: NavigationState,
    pub help_open: bool,
    pub list_view: Option<ListView>,
    pub animation_tick: u64,
    pub server_reused: bool,
    pub server_version: String,
    pub protocol_version: String,
    pub initial_refresh: InitialRefresh,
    pub models: Vec<ModelInfo>,
    pub local_models: Vec<LocalModelInfo>,
    pub local_selected: usize,
    pub last_error: Option<String>,
    pub search_query: String,
    pub editing_search: bool,
    pub catalog: Vec<CatalogModel>,
    pub catalog_selected: usize,
    pub catalog_filter: CatalogFilter,
    pub catalog_error: Option<String>,
    pub catalog_next_cursor: Option<String>,
    pub catalog_search_pending: bool,
    pub memory_source: String,
    pub total_memory_bytes: Option<u64>,
    pub available_memory_bytes: Option<u64>,
    pub transfer_repo: Option<String>,
    pub transfer_phase: Option<String>,
    pub transfer_downloaded_bytes: u64,
    pub transfer_total_bytes: Option<u64>,
    pub transfer_pending: bool,
    pub action_message: Option<String>,
    pub remove_dialog: Option<RemoveDialog>,
    pub pending_removal: Option<RemoveDialog>,
    pub load_dialog: Option<LoadDialog>,
    pub settings_pending: bool,
    pub lifecycle_pending: bool,
    pub restore_queue: Vec<String>,
    pub restore_in_flight: Option<String>,
    pub restore_pending: bool,
    pub chat_input: String,
    pub chat_image: Option<AttachedImage>,
    pub chat_scroll: usize,
    pub chat_model_index: usize,
    pub chat_messages: Vec<Message>,
    pub chat_reasoning: ReasoningView,
    pub chat_error: Option<String>,
    pub chat_status: ChatStatus,
    pub chat_operation_id: Option<String>,
    pub chat_stream_open: bool,
    pub chat_settings_dialog: Option<ChatSettingsDialog>,
    pub chat_settings_pending: bool,
    pub chat_parameters: Option<ChatParameters>,
    pub activities: Vec<ActivityEvent>,
    pub activity_selected: usize,
    pub activity_error: Option<String>,
    pub configuration: Option<ConfigurationSnapshot>,
    pub configuration_selected: usize,
    pub configuration_edit: Option<ConfigurationEdit>,
    pub configuration_message: Option<String>,
    pub configuration_view: ConfigurationView,
    pub benchmark: BenchmarkControls,
}

impl ReasoningView {
    /// The other view.
    pub fn toggled(self) -> (other: ReasoningView)
        ensures
            other != self,
    {
        match self {
            ReasoningView::Collapsed => ReasoningView::Expanded,
            ReasoningView::Expanded => ReasoningView::Collapsed,
        }
    }

    /// Whether the reasoning is shown in full.
    pub fn expanded(self) -> (full: bool)
        ensures
            full == (self == ReasoningView::Expanded),
    {
        match self {
            ReasoningView::Collapsed => false,
            ReasoningView::Expanded => true,
        }
    }
}

impl BenchmarkControls {
    /// One warmup run and three samples, with an empty prompt.
    pub fn new() -> (controls: BenchmarkControls)
        ensures
            controls.prompt@.len() == 0,
            controls.warmup == 1,
            controls.samples == 3,
            controls.completed == 0,
            controls.phase@ == "ready"@,
            controls.status == BenchmarkStatus::Idle,
            controls.model_index == 0,
            controls.error is None,
            controls.operation_id is None,
            controls.running_model@.len() == 0,
    {
        BenchmarkControls {
            prompt: String::new(),
            warmup: 1,
            samples: 3,
            completed: 0,
            phase: "ready".to_owned(),
            status: BenchmarkStatus::Idle,
            model_index: 0,
            error: None,
            operation_id: None,
            running_model: String::new(),
        }
    }
}

impl App {
    /// The state before the first snapshot: the overview, no models, no dialog, nothing in flight.
    pub fn new(server_reused: bool) -> (app: App)
        ensures
            app.screen == Screen::Overview,
            app.navigation.exit_dialog == false,
            !app.help_open,
            app.list_view is None,
            app.animation_tick == 0,
            app.server_reused == server_reused,
            app.server_version@ == "connecting"@,
            app.protocol_version@ == "-"@,
            app.initial_refresh == InitialRefresh::Pending,
            app.models@.len() == 0,
            app.local_models@.len() == 0,
            app.local_selected == 0,
            app.last_error is None,
            app.search_query@.len() == 0,
            !app.editing_search,
            app.catalog@.len() == 0,
            app.catalog_selected == 0,
            app.catalog_filter == CatalogFilter::Compatible,
            app.catalog_error is None,
            app.catalog_next_cursor is None,
            !app.catalog_search_pending,
            app.memory_source@ == "not sampled"@,
            app.total_memory_bytes is None,
            app.available_memory_bytes is None,
            app.transfer_repo is None,
            app.transfer_phase is None,
            app.transfer_downloaded_bytes == 0,
            app.transfer_total_bytes is None,
            !app.transfer_pending,
            app.action_message is None,
            app.remove_dialog is None,
            app.pending_removal is None,
            app.load_dialog is None,
            !app.settings_pending,
            !app.lifecycle_pending,
            app.restore_queue@.len() == 0,
            app.restore_in_flight is None,
            !app.restore_pending,
            app.chat_input@.len() == 0,
            app.chat_image is None,
            app.chat_scroll == 0,
            app.chat_model_index == 0,
            app.chat_messages@.len() == 0,
            app.chat_reasoning == ReasoningView::Collapsed,
            app.chat_error is None,
            app.chat_status == ChatStatus::Idle,
            app.chat_operation_id is None,
            !app.chat_stream_open,
            app.chat_settings_dialog is None,
            !app.chat_settings_pending,
            app.chat_parameters is None,
            app.activities@.len() == 0,
            app.activity_selected == 0,
            app.activity_error is None,
            app.configuration is None,
            app.configuration_selected == 0,
            app.configuration_edit is None,
            app.configuration_message is None,
            app.configuration_view == ConfigurationView::Table,
            app.benchmark.prompt@.len() == 0,
            app.benchmark.warmup == 1,
            app.benchmark.samples == 3,
            app.benchmark.status == BenchmarkStatus::Idle,
            app.benchmark.model_index == 0,
    {
        App {
            screen: Screen::Overview,
            navigation: NavigationState { exit_dialog: false },
            help_open: false,
            list_view: None,
            animation_tick: 0,
            server_reused,
            server_version: "connecting".to_owned(),
            protocol_version: "-".to_owned(),
            initial_refresh: InitialRefresh::Pending,
            models: Vec::new(),
            local_models: Vec::new(),
            local_selected: 0,
            last_error: None,
            search_query: String::new(),
            editing_search: false,
            catalog: Vec::new(),
            catalog_selected: 0,
            catalog_filter: CatalogFilter::Compatible,
            catalog_error: None,
            catalog_next_cursor: None,
            catalog_search_pending: false,
            memory_source: "not sampled".to_owned(),
            total_memory_bytes: None,
            available_memory_bytes: None,
            transfer_repo: None,
            transfer_phase: None,
            transfer_downloaded_bytes: 0,
            transfer_total_bytes: None,
            transfer_pending: false,
            action_message: None,
            remove_dialog: None,
            pending_removal: None,
            load_dialog: None,
            settings_pending: false,
            lifecycle_pending: false,
            restore_queue: Vec::new(),
            restore_in_flight: None,
            restore_pending: false,
            chat_input: String::new(),
            chat_image: None,
            chat_scroll: 0,
            chat_model_index: 0,
            chat_messages: Vec::new(),
            chat_reasoning: ReasoningView::Collapsed,
            chat_error: None,
            chat_status: ChatStatus::Idle,
            chat_operation_id: None,
            chat_stream_open: false,
            chat_settings_dialog: None,
            chat_settings_pending: false,
            chat_parameters: None,
            activities: Vec::new(),
            activity_selected: 0,
            activity_error: None,
            configuration: None,
            configuration_selected: 0,
            configuration_edit: None,
            configuration_message: None,
            configuration_view: ConfigurationView::Table,
            benchmark: BenchmarkControls::new(),
        }
    }
}

} // verus!
