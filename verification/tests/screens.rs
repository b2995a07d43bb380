use mirmir_tui::app::{App, InitialRefresh};
use mirmir_tui::capabilities::summary;
use mirmir_tui::content::{Tone, message_lines, thought_lines};
use mirmir_tui::dialogs::{LoadDialog, LoadStatus, LoadTarget};
use mirmir_tui::format::memory_basis_points;
use mirmir_tui::records::{EmbeddingCapabilities, ModelTaskCapabilities, RerankCapabilities};

fn percentage(total: Option<u64>, available: Option<u64>) -> Option<f64> {
    memory_basis_points(total, available).map(|points| f64::from(points) / 100.0)
}

#[test]
fn computes_bounded_memory_percentage() {
    assert_eq!(percentage(Some(100), Some(25)), Some(75.0));
    assert_eq!(percentage(Some(100), Some(120)), Some(0.0));
    assert_eq!(percentage(None, None), None);
}

#[test]
fn failed_initial_refresh_removes_the_loading_overlay() {
    let mut app = App::new(true);
    app.apply_refresh(Err("runtime unavailable".to_owned()), "1");
    assert_eq!(app.initial_refresh, InitialRefresh::Complete);
    assert_eq!(app.last_error.as_deref(), Some("runtime unavailable"));
}

#[test]
fn hides_think_markers_and_dims_reasoning() {
    let lines = message_lines("<think>draft\nstill thinking</think>answer");
    assert_eq!(lines[0][0].text, "draft");
    assert_eq!(lines[0][0].tone, Tone::Thought);
    assert_eq!(lines[1][0].tone, Tone::Thought);
    assert_eq!(lines[1][1].text, "answer");
    assert_eq!(lines[1][1].tone, Tone::Ink);
    assert_eq!(thought_lines("semantic")[0][0].tone, Tone::Thought);
}

#[test]
fn describes_task_contracts_without_load_settings() {
    let embedding = EmbeddingCapabilities {
        native_dimensions: 1024,
        pooling: "last_token".to_owned(),
        normalized: true,
        prompt_names: vec!["query".to_owned(), "passage".to_owned()],
        default_prompt: Some("query".to_owned()),
        includes_prompt: false,
    };
    let mut dialog = LoadDialog {
        target: LoadTarget {
            selector: String::new(),
            config_id: String::new(),
            repo_id: String::new(),
            revision: String::new(),
            commit: String::new(),
        },
        task: "embedding".to_owned(),
        capabilities: Some(ModelTaskCapabilities {
            max_input_tokens: 32_768,
            embedding: Some(embedding),
            rerank: None,
        }),
        status: LoadStatus::Editing,
        fields: std::array::from_fn(|_| String::new()),
        selected: 0,
        has_mirmir_overrides: false,
        memory: None,
        force: false,
        progress: None,
        error: None,
        restore: None,
    };

    let embedding_summary = summary(&dialog);
    assert!(embedding_summary.contains("1024 dimensions · last token · normalized"));
    assert!(embedding_summary.contains("query, passage · default query"));
    assert!(embedding_summary.contains("none required"));

    dialog.task = "rerank".to_owned();
    dialog.capabilities = Some(ModelTaskCapabilities {
        max_input_tokens: 8192,
        embedding: None,
        rerank: Some(RerankCapabilities {
            labels: 1,
            pooling: "cls".to_owned(),
            raw_scores: true,
        }),
    });
    let rerank_summary = summary(&dialog);
    assert!(rerank_summary.contains("maximum pair"));
    assert!(rerank_summary.contains("8192 tokens"));
    assert!(rerank_summary.contains("1 label · cls pooling · raw logits available"));
}
