use mirmir_tui::app::App;
use mirmir_tui::dialogs::{LoadDialog, LoadStatus, LoadTarget};
use mirmir_tui::input::KeyCode;
use mirmir_tui::load::FloatChecks;
use mirmir_tui::records::LocalModelInfo;
use mirmir_tui::screen::Screen;
use mirmir_tui::viewport::{ListView, Rect};

fn local_model(index: usize) -> LocalModelInfo {
    LocalModelInfo {
        id: format!("model-{index}"),
        repo_id: format!("Test/Model-{index}"),
        revision: "main".to_owned(),
        commit: String::new(),
        path: format!("/models/{index}"),
        state: "available".to_owned(),
        recent_rank: None,
        selector: format!("model-{index}"),
        managed: true,
        ..Default::default()
    }
}

#[test]
fn embedding_load_omits_generation_settings() {
    let dialog = LoadDialog {
        target: LoadTarget {
            selector: "Qwen--Embedding".to_owned(),
            config_id: "Qwen--Embedding".to_owned(),
            repo_id: String::new(),
            revision: String::new(),
            commit: String::new(),
        },
        task: "embedding".to_owned(),
        capabilities: None,
        status: LoadStatus::Editing,
        fields: std::array::from_fn(|_| String::new()),
        selected: 0,
        has_mirmir_overrides: false,
        memory: None,
        force: false,
        progress: None,
        error: None,
        restore: None,
    };
    let checks = FloatChecks { temperature: false, top_p: false, repetition_penalty: false };

    assert!(dialog.request(checks).expect("load request").settings.is_none());
}

#[test]
fn external_cache_model_opens_removal_confirmation() {
    let mut app = App::new(true);
    app.local_models.push(LocalModelInfo {
        id: "Qwen--External".to_owned(),
        repo_id: "Qwen/External".to_owned(),
        revision: "main".to_owned(),
        commit: "abc123".to_owned(),
        path: "/hf/models--Qwen--External/snapshots/abc123".to_owned(),
        state: "available".to_owned(),
        recent_rank: None,
        selector: "/hf/models--Qwen--External/snapshots/abc123".to_owned(),
        managed: false,
        ..Default::default()
    });

    app.open_remove_dialog();

    let dialog = app.remove_dialog.expect("confirmation should open");
    assert_eq!(dialog.repo_id, "Qwen/External");
    assert_eq!(dialog.source, "HF CACHE");
}

#[test]
fn list_navigation_supports_pages_and_boundaries() {
    let mut app = App::new(true);
    app.screen = Screen::Models;
    app.local_models = (0..20).map(local_model).collect();
    assert!(app.handle_list_navigation(KeyCode::PageDown));
    assert_eq!(app.local_selected, 8);
    assert!(app.handle_list_navigation(KeyCode::End));
    assert_eq!(app.local_selected, 19);
    assert!(app.handle_list_navigation(KeyCode::Home));
    assert_eq!(app.local_selected, 0);
}

#[test]
fn viewport_maps_visible_mouse_rows_to_model_indices() {
    let view = ListView::new(Rect { x: 10, y: 5, width: 40, height: 7 }, 12, 20);
    assert_eq!(view.offset, 8);
    assert_eq!(view.row(12, 6), Some(8));
    assert_eq!(view.row(12, 10), Some(12));
    assert_eq!(view.row(9, 6), None);
}
