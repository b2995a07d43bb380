use mirmir_tui::app::App;
use mirmir_tui::input::{Event, KeyCode, KeyEvent, KeyEventKind, force_quit};
use mirmir_tui::screen::{Screen, WORKSPACE_ROW};

#[test]
fn control_c_is_an_unconditional_emergency_exit() {
    let pressed = Event::Key(KeyEvent {
        code: KeyCode::Char('c'),
        control: true,
        kind: KeyEventKind::Press,
    });
    let released = Event::Key(KeyEvent {
        code: KeyCode::Char('c'),
        control: true,
        kind: KeyEventKind::Release,
    });
    assert!(force_quit(&pressed));
    assert!(!force_quit(&released));
}

#[test]
fn function_keys_select_screens() {
    let mut app = App::new(true);
    let tabs = [
        (Screen::Overview, 1),
        (Screen::Models, 2),
        (Screen::Chat, 3),
        (Screen::Settings, 4),
        (Screen::Activity, 5),
        (Screen::Benchmarks, 6),
    ];
    for (screen, number) in tabs {
        let key = KeyEvent::pressed(KeyCode::F(number));
        assert_eq!(app.handle_navigation_key(key), Some(false));
        assert_eq!(app.screen, screen);
    }
}

#[test]
fn tab_cycles_in_both_directions() {
    let mut app = App::new(true);
    app.handle_navigation_key(KeyEvent::pressed(KeyCode::Tab));
    assert_eq!(app.screen, Screen::Models);
    app.handle_navigation_key(KeyEvent::pressed(KeyCode::BackTab));
    assert_eq!(app.screen, Screen::Overview);
    app.handle_navigation_key(KeyEvent::pressed(KeyCode::BackTab));
    assert_eq!(app.screen, Screen::Benchmarks);
}

#[test]
fn clicking_workspace_selects_tab() {
    let mut app = App::new(true);
    assert!(app.handle_workspace_click(31, WORKSPACE_ROW));
    assert_eq!(app.screen, Screen::Models);
    assert!(!app.handle_workspace_click(31, WORKSPACE_ROW + 1));
}

#[test]
fn escape_requires_confirmation() {
    let mut app = App::new(true);
    assert_eq!(app.handle_navigation_key(KeyEvent::pressed(KeyCode::Esc)), Some(false));
    assert!(app.navigation.exit_dialog);
    assert_eq!(app.handle_navigation_key(KeyEvent::pressed(KeyCode::Char('n'))), Some(false));
    assert!(!app.navigation.exit_dialog);
}

#[test]
fn question_mark_opens_and_closes_context_help() {
    let mut app = App::new(true);
    let question = KeyEvent::pressed(KeyCode::Char('?'));
    assert!(app.open_help(question));
    assert!(app.help_open);
    assert!(app.dismiss_help(question));
    assert!(!app.help_open);
}

#[test]
fn question_mark_stays_available_inside_a_started_chat_prompt() {
    let mut app = App::new(true);
    app.screen = Screen::Chat;
    assert!(app.open_help(KeyEvent::pressed(KeyCode::Char('?'))));
    app.help_open = false;
    app.chat_input = "Is this".to_owned();
    assert!(!app.open_help(KeyEvent::pressed(KeyCode::Char('?'))));
}
