//! The runtime's records as the dashboard holds them: models, operations, settings.
use vstd::prelude::*;

verus! {

/// A model that the runtime has loaded and can serve.
#[derive(Debug, Clone, Default)]
pub struct ModelInfo {
    pub id: String,
    pub path: String,
    pub image_input: bool,
    pub image_unavailable_reason: String,
}

/// A model checkpoint found on local storage.
#[derive(Debug, Clone, Default)]
pub struct LocalModelInfo {
    pub id: String,
    pub repo_id: String,
    pub revision: String,
    pub commit: String,
    pub path: String,
    pub state: String,
    pub recent_rank: Option<u64>,
    pub selector: String,
    pub managed: bool,
    pub loadable: bool,
    pub load_unavailable_reason: String,
    pub size_bytes: u64,
    pub library: String,
    pub tool_use: bool,
    pub thinking: bool,
    pub vision: bool,
}

/// A model found by a Hugging Face catalog search.
#[derive(Debug, Clone, Default)]
pub struct CatalogModel {
    pub id: String,
    pub local_source: String,
    pub downloaded: bool,
    pub compatibility: String,
    pub memory_fit: String,
    pub downloads: u64,
    pub likes: u64,
    pub gated: bool,
    pub encoding: String,
    pub ecosystem: String,
    pub estimated_required_bytes: Option<u64>,
    pub architecture: String,
    pub reason: String,
    pub confidence: String,
    pub tool_use: bool,
    pub thinking: bool,
    pub vision: bool,
}

/// The latest state of one runtime operation.
#[derive(Debug, Clone, Default)]
pub struct ActivityEvent {
    pub operation_id: String,
    pub kind: String,
    pub target: String,
    pub state: String,
    pub stage: String,
    pub detail: String,
    pub started_at_unix_ms: u64,
    pub updated_at_unix_ms: u64,
    pub cancellable: bool,
    pub current: Option<u64>,
    pub total: Option<u64>,
}

/// One effective configuration value.
#[derive(Debug, Clone, Default)]
pub struct ConfigurationValue {
    pub key: String,
    pub value: String,
    pub source: String,
    pub editable: bool,
    pub restart_required: bool,
}

/// Whether a secret is configured, and where it comes from.
#[derive(Debug, Clone, Default)]
pub struct SecretState {
    pub configured: bool,
    pub source: String,
}

/// The runtime configuration as the server reports it.
#[derive(Debug, Clone, Default)]
pub struct ConfigurationSnapshot {
    pub config_path: String,
    pub secrets_path: String,
    pub raw_toml: String,
    pub values: Vec<ConfigurationValue>,
    pub hugging_face_token: Option<SecretState>,
    pub http_api_key: Option<SecretState>,
}

/// A progress event of a model load.
#[derive(Debug, Clone, Default)]
pub struct ModelLifecycleEvent {
    pub operation_id: String,
    pub selector: String,
    pub phase: String,
    pub current: u64,
    pub total: Option<u64>,
    pub unit: String,
    pub detail: String,
    pub model: Option<ModelInfo>,
}

/// A progress event of a model download.
#[derive(Debug, Clone, Default)]
pub struct ModelTransferEvent {
    pub repo_id: String,
    pub phase: String,
    pub downloaded_bytes: u64,
    pub total_bytes: Option<u64>,
    pub message: String,
}

/// The server's memory estimate for loading a model.
#[derive(Debug, Clone, Default)]
pub struct ModelMemoryEstimate {
    pub fit: String,
    pub required_bytes: u64,
    pub budget_bytes: Option<u64>,
    pub max_safe_context_tokens: Option<u64>,
    pub configured_cache_tokens: u64,
}

/// What an embedding checkpoint produces.
#[derive(Debug, Clone, Default)]
pub struct EmbeddingCapabilities {
    pub native_dimensions: u64,
    pub pooling: String,
    pub normalized: bool,
    pub prompt_names: Vec<String>,
    pub default_prompt: Option<String>,
    pub includes_prompt: bool,
}

/// What a reranking checkpoint produces.
#[derive(Debug, Clone, Default)]
pub struct RerankCapabilities {
    pub labels: u64,
    pub pooling: String,
    pub raw_scores: bool,
}

/// The task contract that a checkpoint declares.
#[derive(Debug, Clone, Default)]
pub struct ModelTaskCapabilities {
    pub max_input_tokens: u64,
    pub embedding: Option<EmbeddingCapabilities>,
    pub rerank: Option<RerankCapabilities>,
}

/// Generation settings spelled as the dashboard edits them, one text per field:
/// max tokens, temperature, top p, top k, repetition penalty.
#[derive(Debug, Clone, Default)]
pub struct SettingsText {
    pub max_tokens: String,
    pub temperature: String,
    pub top_p: String,
    pub top_k: String,
    pub repetition_penalty: String,
}

/// The server's answer to a model inspection.
#[derive(Debug, Clone, Default)]
pub struct InspectModelResponse {
    pub task: String,
    pub settings: Option<SettingsText>,
    pub capabilities: Option<ModelTaskCapabilities>,
    pub has_mirmir_overrides: bool,
    pub memory: Option<ModelMemoryEstimate>,
}

/// Generation settings of a load request; the real-valued ones stay in their checked spelling.
#[derive(Debug, Clone, Default)]
pub struct GenerationSettings {
    pub max_tokens: u64,
    pub temperature: String,
    pub top_p: String,
    pub top_k: u64,
    pub repetition_penalty: String,
}

/// A request to load a model.
#[derive(Debug, Clone, Default)]
pub struct LoadModelRequest {
    pub selector: String,
    pub settings: Option<GenerationSettings>,
    pub config_id: String,
    pub repo_id: String,
    pub revision: String,
    pub commit: String,
    pub force: bool,
}

/// A chat message as a generation request carries it.
#[derive(Debug, Clone, Default)]
pub struct ChatMessageInput {
    pub role: String,
    pub content: String,
    pub reasoning_content: Option<String>,
}

/// A request to generate a chat reply. The real-valued parameters hold the spelling of
/// values that the chat parameter dialog accepted.
#[derive(Debug, Clone, Default)]
pub struct GenerateRequest {
    pub model: String,
    pub prompt: String,
    pub max_tokens: Option<u64>,
    pub temperature: Option<String>,
    pub top_p: Option<String>,
    pub top_k: Option<u64>,
    pub repetition_penalty: Option<String>,
    pub seed: Option<u64>,
    pub messages: Vec<ChatMessageInput>,
    pub image: Option<Vec<u8>>,
}

/// An image attached to the chat prompt.
#[derive(Debug, Clone, Default)]
pub struct AttachedImage {
    pub name: String,
    pub bytes: Vec<u8>,
}

/// One message of the conversation: its author, its answer text and its reasoning.
#[derive(Debug, Clone, Default)]
pub struct Message {
    pub role: String,
    pub content: String,
    pub thought: String,
}

} // verus!

verus! {

/// The server's answer to a configuration change.
#[derive(Debug, Clone, Default)]
pub struct UpdateConfigurationResponse {
    pub configuration: Option<ConfigurationSnapshot>,
    pub restart_required: bool,
    pub message: String,
}

} // verus!

verus! {

/// The server's answer to a model removal.
#[derive(Debug, Clone, Default)]
pub struct RemoveModelResponse {
    pub removed: bool,
    pub freed_bytes: u64,
}

/// The server's answer to a catalog search.
#[derive(Debug, Clone, Default)]
pub struct SearchModelsResponse {
    pub models: Vec<CatalogModel>,
    pub next_cursor: Option<String>,
    pub memory_source: String,
    pub total_memory_bytes: Option<u64>,
    pub available_memory_bytes: Option<u64>,
}

/// A catalog search result, tagged with the query that asked for it.
#[derive(Debug)]
pub struct CatalogSearchEvent {
    pub query: String,
    pub append: bool,
    pub result: Result<SearchModelsResponse, String>,
}

} // verus!

verus! {

impl ModelInfo {
    /// A copy of the model record.
    pub fn copied(&self) -> (copy: ModelInfo)
        ensures
            copy == *self,
    {
        ModelInfo {
            id: self.id.clone(),
            path: self.path.clone(),
            image_input: self.image_input,
            image_unavailable_reason: self.image_unavailable_reason.clone(),
        }
    }
}

impl ModelLifecycleEvent {
    /// A copy of the event.
    pub fn copied(&self) -> (copy: ModelLifecycleEvent)
        ensures
            copy == *self,
    {
        ModelLifecycleEvent {
            operation_id: self.operation_id.clone(),
            selector: self.selector.clone(),
            phase: self.phase.clone(),
            current: self.current,
            total: self.total,
            unit: self.unit.clone(),
            detail: self.detail.clone(),
            model: match &self.model {
                Some(model) => Some(model.copied()),
                None => None,
            },
        }
    }
}

} // verus!
