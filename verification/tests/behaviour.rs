use mirmir_tui::app::{App, ChatStatus, Command};
use mirmir_tui::benchmark::{BenchmarkEvent, export_stem, run_phase};
use mirmir_tui::chat::ChatEvent;
use mirmir_tui::events::Surroundings;
use mirmir_tui::footer::{fit_count, help, help_title};
use mirmir_tui::format::{binary_size, human_bytes};
use mirmir_tui::input::{Event, KeyCode, KeyEvent, KeyEventKind};
use mirmir_tui::records::{ActivityEvent, CatalogModel, Message, ModelInfo, SearchModelsResponse};
use mirmir_tui::screen::{Screen, next_screen, previous_screen};
use mirmir_tui::search::chars_before;
use mirmir_tui::view::{actions, spinner};

fn nothing_outside() -> Surroundings {
    Surroundings { dropped_input: None, dropped_paste: None, catalog_key: None }
}

fn press(code: KeyCode) -> Event {
    Event::Key(KeyEvent::pressed(code))
}

fn control(c: char) -> Event {
    Event::Key(KeyEvent { code: KeyCode::Char(c), control: true, kind: KeyEventKind::Press })
}

fn model(id: &str) -> ModelInfo {
    ModelInfo { id: id.to_owned(), path: format!("/models/{id}"), image_input: false, ..Default::default() }
}

fn event(id: &str, state: &str, updated: u64) -> ActivityEvent {
    ActivityEvent {
        operation_id: id.to_owned(),
        kind: "generate".to_owned(),
        state: state.to_owned(),
        updated_at_unix_ms: updated,
        cancellable: true,
        ..Default::default()
    }
}

fn result(id: &str, compatibility: &str, fit: &str, downloads: u64) -> CatalogModel {
    CatalogModel {
        id: id.to_owned(),
        local_source: "remote".to_owned(),
        compatibility: compatibility.to_owned(),
        memory_fit: fit.to_owned(),
        downloads,
        ..Default::default()
    }
}

#[test]
fn tabs_cycle_and_step_back() {
    let mut screen = Screen::Overview;
    for _ in 0..6 {
        screen = next_screen(screen);
    }
    assert_eq!(screen, Screen::Overview);
    assert_eq!(previous_screen(next_screen(Screen::Chat)), Screen::Chat);
    assert_eq!(previous_screen(Screen::Overview), Screen::Benchmarks);
}

#[test]
fn activity_lists_newest_first_and_follows_the_selection() {
    let mut app = App::new(true);
    app.apply_activity(event("a", "running", 10));
    app.apply_activity(event("b", "running", 30));
    app.apply_activity(event("c", "running", 20));
    let order: Vec<&str> = app.activities.iter().map(|e| e.operation_id.as_str()).collect();
    assert_eq!(order, ["b", "c", "a"]);
    app.activity_selected = 2;
    app.apply_activity(event("a", "completed", 40));
    let order: Vec<&str> = app.activities.iter().map(|e| e.operation_id.as_str()).collect();
    assert_eq!(order, ["a", "b", "c"]);
    assert_eq!(app.activity_selected, 0);
    assert_eq!(app.activities.len(), 3);
    assert_eq!(app.activities[0].state, "completed");
}

#[test]
fn finished_operations_cannot_be_cancelled() {
    let mut app = App::new(true);
    app.apply_activity(event("done", "completed", 5));
    assert!(app.cancel_selected_activity().is_none());
    assert_eq!(app.activity_error.as_deref(), Some("selected operation cannot be cancelled"));
    app.apply_activity(event("live", "running", 9));
    app.activity_selected = 0;
    match app.cancel_selected_activity() {
        Some(Command::CancelOperation { operation_id }) => assert_eq!(operation_id, "live"),
        other => panic!("unexpected {other:?}"),
    }
}

#[test]
fn search_results_are_ranked_by_fit_then_downloads_then_id() {
    let mut app = App::new(true);
    app.search_query = "qwen".to_owned();
    let response = SearchModelsResponse {
        models: vec![
            result("b", "unknown", "fits", 10),
            result("a", "supported", "tight", 5),
            result("c", "supported", "fits", 1),
            result("e", "supported", "fits", 7),
            result("d", "supported", "fits", 7),
        ],
        next_cursor: Some("next".to_owned()),
        memory_source: "device".to_owned(),
        total_memory_bytes: Some(100),
        available_memory_bytes: Some(40),
    };
    app.apply_search_response(response, false);
    let order: Vec<&str> = app.catalog.iter().map(|m| m.id.as_str()).collect();
    assert_eq!(order, ["d", "e", "c", "a", "b"]);
    assert_eq!(app.catalog_next_cursor.as_deref(), Some("next"));
    assert_eq!(app.memory_source, "device");
}

#[test]
fn stale_search_answers_are_dropped() {
    let mut app = App::new(true);
    app.search_query = "llama".to_owned();
    app.catalog_search_pending = true;
    app.apply_search_event(mirmir_tui::records::CatalogSearchEvent {
        query: "qwen".to_owned(),
        append: false,
        result: Err("boom".to_owned()),
    });
    assert!(!app.catalog_search_pending);
    assert!(app.catalog_error.is_none());
    app.apply_search_event(mirmir_tui::records::CatalogSearchEvent {
        query: "llama".to_owned(),
        append: false,
        result: Err("boom".to_owned()),
    });
    assert_eq!(app.catalog_error.as_deref(), Some("boom"));
}

#[test]
fn typing_a_search_queues_the_trimmed_query() {
    let mut app = App::new(true);
    app.search_query = " q".to_owned();
    match app.handle_search_key(KeyCode::Char('w'), None) {
        Some(Command::SearchModels { query, limit, append, cursor }) => {
            assert_eq!(query, "qw");
            assert_eq!(limit, 25);
            assert!(!append);
            assert!(cursor.is_none());
        },
        other => panic!("unexpected {other:?}"),
    }
    assert!(app.catalog_search_pending);
}

#[test]
fn text_order_compares_characters() {
    assert!(chars_before("abc", "abd"));
    assert!(chars_before("ab", "abc"));
    assert!(!chars_before("abc", "abc"));
    assert!(!chars_before("b", "abc"));
}

#[test]
fn sending_a_prompt_starts_a_generation() {
    let mut app = App::new(true);
    app.screen = Screen::Chat;
    app.models.push(model("qwen"));
    for c in "  hello ".chars() {
        app.handle(Some(press(KeyCode::Char(c))), nothing_outside());
    }
    let step = app.handle(Some(press(KeyCode::Enter)), nothing_outside());
    assert!(!step.exit);
    match step.command {
        Some(Command::Generate(request)) => {
            assert_eq!(request.model, "qwen");
            assert_eq!(request.messages.len(), 1);
            assert_eq!(request.messages[0].content, "hello");
            assert_eq!(request.max_tokens, None);
        },
        other => panic!("unexpected {other:?}"),
    }
    assert_eq!(app.chat_status, ChatStatus::Generating);
    assert!(app.chat_input.is_empty());
    assert_eq!(app.chat_messages.len(), 2);
    assert_eq!(app.chat_messages[1].role, "assistant");
    app.apply_chat_event(ChatEvent::Token { text: "think".to_owned(), reasoning: true });
    app.apply_chat_event(ChatEvent::Token { text: "Hi".to_owned(), reasoning: false });
    assert_eq!(app.chat_messages[1].thought, "think");
    assert_eq!(app.chat_messages[1].content, "Hi");
    app.apply_chat_event(ChatEvent::Completion { text: "Hi there".to_owned(), reasoning: String::new() });
    assert_eq!(app.chat_status, ChatStatus::Idle);
    assert_eq!(app.chat_messages[1].content, "Hi there");
}

#[test]
fn chat_without_a_model_says_so() {
    let mut app = App::new(true);
    app.chat_input = "hello".to_owned();
    assert!(app.start_chat(None).is_none());
    assert_eq!(app.chat_error.as_deref(), Some("load a model before starting chat"));
}

#[test]
fn image_refused_by_a_text_model() {
    let mut app = App::new(true);
    let mut text_model = model("qwen");
    text_model.image_unavailable_reason = "no vision tower".to_owned();
    app.models.push(text_model);
    assert!(app.handle_chat_paste("/tmp/cat.png", Some("/tmp/cat.png".to_owned())).is_none());
    assert_eq!(app.chat_error.as_deref(), Some("selected model cannot accept images: no vision tower"));
    app.chat_error = None;
    assert!(app.handle_chat_paste("plain", None).is_none());
    assert_eq!(app.chat_input, "plain");
}

#[test]
fn cancelling_a_generation_waits_for_its_operation() {
    let mut app = App::new(true);
    app.chat_status = ChatStatus::Generating;
    assert!(app.cancel_chat().is_none());
    assert_eq!(app.chat_error.as_deref(), Some("generation is starting; try cancellation again"));
    app.apply_chat_event(ChatEvent::Started { operation_id: "op-1".to_owned() });
    match app.cancel_chat() {
        Some(Command::CancelOperation { operation_id }) => assert_eq!(operation_id, "op-1"),
        other => panic!("unexpected {other:?}"),
    }
    assert_eq!(app.chat_error.as_deref(), Some("cancellation requested"));
}

#[test]
fn clearing_the_chat_asks_to_clear_its_metrics() {
    let mut app = App::new(true);
    app.screen = Screen::Chat;
    app.chat_messages.push(Message { role: "user".to_owned(), content: "x".to_owned(), thought: String::new() });
    let step = app.handle(Some(control('k')), nothing_outside());
    assert!(matches!(step.command, Some(Command::ClearChatMetrics)));
    assert!(app.chat_messages.is_empty());
}

#[test]
fn control_c_quits_and_the_end_of_input_too() {
    let mut app = App::new(true);
    assert!(app.handle(Some(control('c')), nothing_outside()).exit);
    assert!(app.handle(None, nothing_outside()).exit);
    assert!(!app.handle(Some(press(KeyCode::Char('x'))), nothing_outside()).exit);
}

#[test]
fn exit_confirmation_quits_on_yes() {
    let mut app = App::new(true);
    assert!(!app.handle(Some(press(KeyCode::Esc)), nothing_outside()).exit);
    assert!(app.navigation.exit_dialog);
    assert!(app.handle(Some(press(KeyCode::Char('y'))), nothing_outside()).exit);
}

#[test]
fn benchmark_needs_a_model_and_a_prompt() {
    let mut app = App::new(true);
    assert!(app.start_benchmark().is_none());
    assert_eq!(app.benchmark.error.as_deref(), Some("load a model before benchmarking"));
    app.models.push(model("qwen"));
    assert!(app.start_benchmark().is_none());
    assert_eq!(app.benchmark.error.as_deref(), Some("enter a benchmark prompt"));
    app.benchmark.prompt = " count ".to_owned();
    match app.start_benchmark() {
        Some(Command::StartBenchmark { request, warmup, samples }) => {
            assert_eq!(request.prompt, "count");
            assert_eq!(request.max_tokens, Some(128));
            assert_eq!(request.seed, Some(42));
            assert_eq!((warmup, samples), (1, 3));
        },
        other => panic!("unexpected {other:?}"),
    }
    assert_eq!(app.benchmark.phase, "starting");
    app.apply_benchmark_event(BenchmarkEvent::Sample);
    app.apply_benchmark_event(BenchmarkEvent::Finished);
    assert_eq!(app.benchmark.completed, 1);
    assert_eq!(app.benchmark.phase, "completed");
}

#[test]
fn benchmark_settings_stay_in_range() {
    let mut app = App::new(true);
    app.screen = Screen::Benchmarks;
    for _ in 0..30 {
        app.handle(Some(press(KeyCode::Up)), nothing_outside());
        app.handle(Some(press(KeyCode::PageUp)), nothing_outside());
    }
    assert_eq!((app.benchmark.samples, app.benchmark.warmup), (20, 10));
    for _ in 0..30 {
        app.handle(Some(press(KeyCode::Down)), nothing_outside());
        app.handle(Some(press(KeyCode::PageDown)), nothing_outside());
    }
    assert_eq!((app.benchmark.samples, app.benchmark.warmup), (1, 0));
}

#[test]
fn benchmark_texts() {
    assert_eq!(run_phase("sample", 2, 3), "sample 2/3");
    assert_eq!(export_stem(17, "Qwen/Qwen3-0.6B"), "17-Qwen-Qwen3-0-6B");
}

#[test]
fn footer_keeps_the_shortcuts_that_fit() {
    let app = App::new(true);
    let items = app.footer_shortcuts();
    assert_eq!(items[0], ("Esc".to_owned(), "quit".to_owned()));
    assert_eq!(items[1], ("?".to_owned(), "help".to_owned()));
    assert_eq!(fit_count(&items, 0), 0);
    assert_eq!(fit_count(&items, 9), 1);
    assert_eq!(fit_count(&items, 10), 1);
    assert_eq!(fit_count(&items, 17), 1);
    assert_eq!(fit_count(&items, 18), 2);
    assert_eq!(fit_count(&items, 1000), items.len());
}

#[test]
fn help_lists_the_screen_keys() {
    let lines = help(Screen::Models);
    assert_eq!(lines[0].0, format!("  {:<22}", "Tab / Shift+Tab"));
    assert_eq!(lines[5], (String::new(), String::new()));
    assert_eq!(lines[6].1, "move through models");
    assert_eq!(help_title(Screen::Chat), "CHAT");
}

#[test]
fn sizes_and_labels() {
    assert_eq!(human_bytes(512), "512 B");
    assert_eq!(human_bytes(1536), "1.50 KiB");
    assert_eq!(binary_size(3 * 1_073_741_824 / 2), "1.50 GiB");
    assert_eq!(spinner(11), "⠙");
    assert_eq!(actions("AVAILABLE", true), "▶ load  × remove");
    assert_eq!(actions("unknown", true), "—");
}

#[test]
fn activity_keeps_one_event_per_operation() {
    let mut app = App::new(true);
    app.apply_activity(event("a", "running", 10));
    app.apply_activity(event("b", "queued", 30));
    app.apply_activity(event("c", "running", 20));
    app.activity_selected = 1;
    app.apply_activity(event("b", "completed", 5));
    let ids: Vec<&str> = app.activities.iter().map(|e| e.operation_id.as_str()).collect();
    assert_eq!(ids, ["c", "a", "b"]);
    assert_eq!(app.activities.iter().filter(|e| e.operation_id == "b").count(), 1);
    assert_eq!(app.activities[2].state, "completed");
    assert_eq!(app.activities[app.activity_selected].operation_id, "c");
    app.activity_selected = 7;
    app.apply_activity(event("d", "running", 50));
    assert_eq!(app.activity_selected, 0);
    assert_eq!(app.activities.len(), 4);
}
