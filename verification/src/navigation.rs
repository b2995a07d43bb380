//! Moving between tabs, the help overlay, and the exit confirmation.
use vstd::prelude::*;

use crate::app::{App, BenchmarkStatus, ChatStatus};
use crate::input::{KeyCode, KeyEvent, KeyEventKind};
use crate::screen::{
    function_key_screen, next_screen, on_tab, previous_screen, screen_at, screen_index,
    workspace_tab_at, Screen,
};

verus! {

/// `app` showing `screen`, with the search field left.
pub open spec fn with_screen(app: App, screen: Screen) -> App {
    App { screen, editing_search: false, ..app }
}

/// Whether `key` closes the help overlay: Esc, Enter or `?` pressed.
pub open spec fn closes_help(key: KeyEvent) -> bool {
    key.kind == KeyEventKind::Press && (key.code == KeyCode::Esc || key.code == KeyCode::Enter
        || key.code == KeyCode::Char('?'))
}

/// Whether `?` opens the help overlay: no dialog and no search is open, and on the chat and
/// benchmark screens the text being typed is empty.
pub open spec fn help_available(app: App) -> bool {
    &&& app.load_dialog is None
    &&& app.chat_settings_dialog is None
    &&& !app.editing_search
    &&& (app.screen == Screen::Chat ==> app.chat_input@.len() == 0)
    &&& (app.screen == Screen::Benchmarks ==> app.benchmark.prompt@.len() == 0)
}

/// Whether the exit confirmation accepts `code`: Enter, `y` or `Y`.
pub open spec fn confirms_exit(code: KeyCode) -> bool {
    code == KeyCode::Enter || code == KeyCode::Char('y') || code == KeyCode::Char('Y')
}

/// Whether the exit confirmation is dismissed by `code`: Esc, `n` or `N`.
pub open spec fn declines_exit(code: KeyCode) -> bool {
    code == KeyCode::Esc || code == KeyCode::Char('n') || code == KeyCode::Char('N')
}

/// What navigation does with a key: `None` leaves the key to the current screen, `Some(exit)`
/// consumes it and says whether the dashboard quits; the state after it is `next`.
pub open spec fn navigation_step(app: App, key: KeyEvent, next: App, result: Option<bool>) -> bool {
    if key.kind != KeyEventKind::Press {
        next == app && result == Some(false)
    } else if app.navigation.exit_dialog {
        &&& result == Some(confirms_exit(key.code))
        &&& next == (if declines_exit(key.code) {
            App { navigation: crate::app::NavigationState { exit_dialog: false }, ..app }
        } else {
            app
        })
    } else if key.code matches KeyCode::F(n) && 1 <= n <= 6 {
        &&& result == Some(false)
        &&& next == with_screen(app, screen_at(key.code->F_0 - 1))
    } else if key.code == KeyCode::Tab {
        result == Some(false) && next == with_screen(app, screen_at(screen_index(app.screen) + 1))
    } else if key.code == KeyCode::BackTab {
        result == Some(false) && next == with_screen(app, screen_at(screen_index(app.screen) + 5))
    } else if key.code == KeyCode::Esc {
        &&& result == Some(false)
        &&& next == App { navigation: crate::app::NavigationState { exit_dialog: true }, ..app }
    } else {
        result is None && next == app
    }
}

impl App {
    /// Shows `screen` and leaves the search field.
    pub fn select_screen(&mut self, screen: Screen)
        ensures
            *final(self) == with_screen(*old(self), screen),
    {
        self.screen = screen;
        self.editing_search = false;
    }

    /// While help is open every key is consumed, and Esc, Enter or `?` close it.
    pub fn dismiss_help(&mut self, key: KeyEvent) -> (consumed: bool)
        ensures
            consumed == old(self).help_open,
            *final(self) == (App {
                help_open: old(self).help_open && !closes_help(key),
                ..*old(self)
            }),
    {
        if !self.help_open {
            return false;
        }
        if key.kind == KeyEventKind::Press && match key.code {
            KeyCode::Esc | KeyCode::Enter | KeyCode::Char('?') => true,
            _ => false,
        } {
            self.help_open = false;
        }
        true
    }

    /// `?` opens the help overlay where typing does not claim it.
    pub fn open_help(&mut self, key: KeyEvent) -> (opened: bool)
        ensures
            opened == (key.kind == KeyEventKind::Press && key.code == KeyCode::Char('?')
                && help_available(*old(self))),
            *final(self) == (App { help_open: old(self).help_open || opened, ..*old(self) }),
    {
        if key.kind == KeyEventKind::Press && key.code == KeyCode::Char('?')
            && self.load_dialog.is_none() && self.chat_settings_dialog.is_none()
            && !self.editing_search && match self.screen {
            Screen::Chat => self.chat_input.as_str().is_empty(),
            Screen::Benchmarks => self.benchmark.prompt.as_str().is_empty(),
            _ => true,
        } {
            self.help_open = true;
            return true;
        }
        false
    }

    /// Answers the exit confirmation: Enter or `y` quits, Esc or `n` closes it.
    pub fn handle_exit_dialog(&mut self, code: KeyCode) -> (exit: bool)
        ensures
            exit == confirms_exit(code),
            *final(self) == (if declines_exit(code) {
                App { navigation: crate::app::NavigationState { exit_dialog: false }, ..*old(self) }
            } else {
                *old(self)
            }),
    {
        let (confirm, decline) = match code {
            KeyCode::Enter => (true, false),
            KeyCode::Esc => (false, true),
            KeyCode::Char(c) => (c == 'y' || c == 'Y', c == 'n' || c == 'N'),
            _ => (false, false),
        };
        if decline {
            self.navigation.exit_dialog = false;
        }
        confirm
    }

    /// Function keys, Tab and Shift+Tab switch tabs, Esc asks before quitting; other keys are
    /// left to the screen.
    pub fn handle_navigation_key(&mut self, key: KeyEvent) -> (result: Option<bool>)
        ensures
            navigation_step(*old(self), key, *final(self), result),
    {
        if key.kind != KeyEventKind::Press {
            return Some(false);
        }
        if self.navigation.exit_dialog {
            return Some(self.handle_exit_dialog(key.code));
        }
        if let Some(screen) = function_key_screen(key.code) {
            self.select_screen(screen);
            return Some(false);
        }
        match key.code {
            KeyCode::Tab => {
                let screen = next_screen(self.screen);
                self.select_screen(screen);
                Some(false)
            },
            KeyCode::BackTab => {
                let screen = previous_screen(self.screen);
                self.select_screen(screen);
                Some(false)
            },
            KeyCode::Esc => {
                self.navigation.exit_dialog = true;
                Some(false)
            },
            _ => None,
        }
    }

    /// A click on a workspace tab selects it.
    pub fn handle_workspace_click(&mut self, column: u16, row: u16) -> (hit: bool)
        ensures
            hit == exists|screen: Screen| on_tab(screen, column as int, row as int),
            hit ==> exists|screen: Screen|
                on_tab(screen, column as int, row as int) && *final(self) == with_screen(
                    *old(self),
                    screen,
                ),
            !hit ==> *final(self) == *old(self),
    {
        match workspace_tab_at(column, row) {
            Some(screen) => {
                self.select_screen(screen);
                true
            },
            None => false,
        }
    }

    /// Advances the spinner animation by one frame, wrapping around.
    pub fn advance_animation(&mut self)
        ensures
            *final(self) == (App {
                animation_tick: (if old(self).animation_tick == u64::MAX {
                    0
                } else {
                    (old(self).animation_tick + 1) as u64
                }),
                ..*old(self)
            }),
    {
        self.animation_tick = if self.animation_tick == u64::MAX {
            0
        } else {
            self.animation_tick + 1
        };
    }
}

} // verus!
