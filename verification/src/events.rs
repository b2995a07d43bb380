//! One terminal event: which part of the dashboard takes it, and what it asks of the runtime.
use vstd::prelude::*;

use crate::app::{App, Command};
use crate::benchmark::benchmark_key_handled;
use crate::chat::{chat_key_handled, chat_mouse_handled, pasted};
use crate::chat_settings::chat_settings_key_handled;
use crate::configure::{configuration_edit_begun, configuration_edit_handled, configuration_key_handled};
use crate::activity::activity_key_handled;
use crate::input::{
    force_quit, is_force_quit_key, Event, KeyEvent, KeyEventKind, MouseButton, MouseEvent,
    MouseEventKind,
};
use crate::lists::{list_key_step, with_moved_selection, with_selection};
use crate::load::load_key_handled;
use crate::models::{model_activated, models_key_handled, more_results_asked, search_key_handled};
use crate::navigation::{closes_help, help_available, navigation_step, with_screen};
use crate::removal::remove_key_handled;
use crate::screen::{on_tab, Screen};
use crate::viewport::inside;

verus! {

/// What the dashboard's surroundings report for the event being handled: the file that the
/// chat prompt names and the one that a pasted text names, where either names a dropped
/// file, and the runtime's configuration key for the selected search result.
#[derive(Debug, Clone)]
pub struct Surroundings {
    pub dropped_input: Option<String>,
    pub dropped_paste: Option<String>,
    pub catalog_key: Option<String>,
}

/// What handling an event leads to: whether the dashboard quits, and what it asks of the
/// runtime or of what runs it.
#[derive(Debug)]
pub struct Step {
    pub exit: bool,
    pub command: Option<Command>,
}

/// Whether clicks may reach the workspace tabs: no dialog and no confirmation is open.
pub open spec fn navigation_available(app: App) -> bool {
    &&& app.load_dialog is None
    &&& app.chat_settings_dialog is None
    &&& app.remove_dialog is None
    &&& app.configuration_edit is None
    &&& !app.navigation.exit_dialog
}

/// Whether the drawn list can map a mouse row to an entry.
pub open spec fn rows_addressable(app: App) -> bool {
    app.list_view matches Some(view) ==> {
        &&& view.area.x < u16::MAX
        &&& view.area.y < u16::MAX
        &&& view.offset <= usize::MAX - u16::MAX
    }
}

/// Whether `kind` is a press of the left mouse button, the one that picks a list row.
pub open spec fn left_press(kind: MouseEventKind) -> bool {
    kind == MouseEventKind::Down(MouseButton::Left)
}

/// Whether handling `event` can need the drawn list to map a mouse row to an entry: only a
/// press of the left button does.
pub open spec fn needs_rows(event: Option<Event>) -> bool {
    event matches Some(Event::Mouse(mouse)) && left_press(mouse.kind)
}

/// The entry of the drawn list under the mouse, if any.
pub open spec fn row_under(app: App, mouse: MouseEvent) -> Option<int> {
    match app.list_view {
        Some(view) => if inside(view.area, mouse.column as int, mouse.row as int) {
            Some(view.offset + (mouse.row - view.area.y - 1))
        } else {
            None
        },
        None => None,
    }
}

/// `app` after the mouse on the content area; `key` is the runtime's configuration key for
/// the selected search result. On the chat screen the conversation takes it; elsewhere the
/// wheel moves the list's selection by three and a left click selects the entry under it,
/// then acts on a model or edits a setting.
#[verifier::opaque]
pub open spec fn content_mouse_handled(pre: App, mouse: MouseEvent, key: Option<String>, post: App, command: Option<Command>) -> bool {
    if pre.screen == Screen::Chat {
        command is None && chat_mouse_handled(pre, mouse.kind, post)
    } else if mouse.kind == MouseEventKind::ScrollUp {
        command is None && post == with_moved_selection(pre, -3)
    } else if mouse.kind == MouseEventKind::ScrollDown {
        command is None && post == with_moved_selection(pre, 3)
    } else if mouse.kind == MouseEventKind::Down(MouseButton::Left) {
        match row_under(pre, mouse) {
            None => command is None && post == pre,
            Some(index) => {
                let selected = with_selection(pre, index);
                if pre.screen == Screen::Models {
                    model_activated(selected, key, post, command)
                } else if pre.screen == Screen::Settings {
                    command is None && configuration_edit_begun(selected, post)
                } else {
                    command is None && post == selected
                }
            },
        }
    } else {
        command is None && post == pre
    }
}

/// `app` after a mouse event.
#[verifier::opaque]
pub open spec fn mouse_handled(pre: App, mouse: MouseEvent, key: Option<String>, post: App, command: Option<Command>) -> bool {
    if pre.help_open {
        command is None && post == (App {
            help_open: mouse.kind != MouseEventKind::Down(MouseButton::Left),
            ..pre
        })
    } else if navigation_available(pre) && (mouse.kind == MouseEventKind::Down(MouseButton::Left)
        || mouse.kind == MouseEventKind::Up(MouseButton::Left)) && exists|screen: Screen|
        on_tab(screen, mouse.column as int, mouse.row as int) {
        command is None && exists|screen: Screen|
            on_tab(screen, mouse.column as int, mouse.row as int) && post == with_screen(pre, screen)
    } else {
        content_mouse_handled(pre, mouse, key, post, command)
    }
}

/// `app` after a key that reaches the screen: a pressed key that no overlay, dialog, search
/// or navigation took. Outside the chat and benchmark screens the list keys move the list's
/// selection, and on the models screen may ask for more search results; otherwise the load
/// dialog, or else the screen, takes the key.
#[verifier::opaque]
pub open spec fn screen_key_handled(pre: App, key: KeyEvent, outside: Surroundings, post: App, command: Option<Command>) -> bool {
    if pre.screen != Screen::Chat && pre.screen != Screen::Benchmarks && list_key_step(pre, key.code) is Some {
        let moved = list_key_step(pre, key.code)->0;
        if pre.screen == Screen::Models {
            more_results_asked(moved, post, command)
        } else {
            command is None && post == moved
        }
    } else if pre.load_dialog is Some {
        load_key_handled(pre, key.code, post, command)
    } else {
        match pre.screen {
            Screen::Chat => chat_key_handled(pre, key, outside.dropped_input, post, command),
            Screen::Settings => configuration_key_handled(pre, key, post, command),
            Screen::Activity => activity_key_handled(pre, key.code, post, command),
            Screen::Models => models_key_handled(pre, key.code, outside.catalog_key, post, command),
            Screen::Benchmarks => benchmark_key_handled(pre, key, post, command),
            Screen::Overview => command is None && post == pre,
        }
    }
}

/// `app` after a key, in the order in which the dashboard offers it: the help overlay, the
/// removal confirmation, the chat parameters, the configuration edit (pressed keys only), the
/// help key, the search being typed, navigation and the exit confirmation, then the screen.
#[verifier::opaque]
pub open spec fn key_handled(pre: App, key: KeyEvent, outside: Surroundings, post: App, step: Step) -> bool {
    let pressed = key.kind == KeyEventKind::Press;
    if pre.help_open {
        !step.exit && step.command is None && post == (App {
            help_open: !closes_help(key),
            ..pre
        })
    } else if pre.remove_dialog is Some {
        !step.exit && if pressed {
            remove_key_handled(pre, key.code, post, step.command)
        } else {
            step.command is None && post == pre
        }
    } else if pre.chat_settings_dialog is Some {
        !step.exit && if pressed {
            chat_settings_key_handled(pre, key.code, post, step.command)
        } else {
            step.command is None && post == pre
        }
    } else if pre.configuration_edit is Some && pressed {
        !step.exit && configuration_edit_handled(pre, key, post, step.command)
    } else if pressed && key.code == crate::input::KeyCode::Char('?') && help_available(pre) {
        !step.exit && step.command is None && post == (App { help_open: true, ..pre })
    } else if pre.editing_search {
        !step.exit && search_key_handled(pre, key.code, outside.catalog_key, post, step.command)
    } else if !pressed {
        !step.exit && step.command is None && post == pre
    } else {
        let navigated = exists|next: App, result: Option<bool>|
            #![trigger navigation_step(pre, key, next, result)]
            navigation_step(pre, key, next, result) && result is Some;
        if navigated {
            step.command is None && navigation_step(pre, key, post, Some(step.exit))
        } else {
            !step.exit && navigation_step(pre, key, pre, None) && screen_key_handled(
                pre,
                key,
                outside,
                post,
                step.command,
            )
        }
    }
}

/// `app` after `event`, where `outside` holds what the surroundings report for it. No event
/// quits, as does Control+C whatever is open; a paste reaches the chat prompt on the chat
/// screen.
pub open spec fn event_handled(pre: App, event: Option<Event>, outside: Surroundings, post: App, step: Step) -> bool {
    match event {
        None => step.exit && step.command is None && post == pre,
        Some(Event::Key(key)) => if is_force_quit_key(key) {
            step.exit && step.command is None && post == pre
        } else {
            key_handled(pre, key, outside, post, step)
        },
        Some(Event::Mouse(mouse)) => !step.exit && mouse_handled(
            pre,
            mouse,
            outside.catalog_key,
            post,
            step.command,
        ),
        Some(Event::Paste(value)) => !step.exit && if pre.screen == Screen::Chat {
            pasted(pre, value@, outside.dropped_paste, post, step.command)
        } else {
            step.command is None && post == pre
        },
        Some(Event::Other) => !step.exit && step.command is None && post == pre,
    }
}

impl App {
    /// Whether the drawn list can map a mouse row to an entry, as handling a mouse event
    /// needs.
    pub fn rows_addressable(&self) -> (addressable: bool)
        ensures
            addressable == rows_addressable(*self),
    {
        match self.list_view {
            Some(view) => view.area.x < u16::MAX && view.area.y < u16::MAX && view.offset
                <= usize::MAX - (u16::MAX as usize),
            None => true,
        }
    }

    /// The mouse on the content area; `key` is the runtime's configuration key for the
    /// selected search result.
    pub fn handle_content_mouse(&mut self, mouse: MouseEvent, key: Option<String>) -> (command: Option<Command>)
        requires
            left_press(mouse.kind) && old(self).screen != Screen::Chat ==> rows_addressable(*old(self)),
        ensures
            content_mouse_handled(*old(self), mouse, key, *final(self), command),
    {
        reveal(content_mouse_handled);
        if self.screen == Screen::Chat {
            self.handle_chat_mouse(mouse.kind);
            return None;
        }
        match mouse.kind {
            MouseEventKind::ScrollUp => {
                self.move_list(-3);
                None
            },
            MouseEventKind::ScrollDown => {
                self.move_list(3);
                None
            },
            MouseEventKind::Down(MouseButton::Left) => {
                let index = match self.list_view {
                    Some(view) => view.row(mouse.column, mouse.row),
                    None => None,
                };
                let index = match index {
                    Some(index) => index,
                    None => return None,
                };
                self.select_list(index);
                match self.screen {
                    Screen::Models => self.activate_selected_model(key),
                    Screen::Settings => {
                        self.begin_configuration_edit();
                        None
                    },
                    _ => None,
                }
            },
            _ => None,
        }
    }

    /// A key that reaches the screen.
    fn handle_screen_key(&mut self, key: KeyEvent, outside: Surroundings) -> (command: Option<Command>)
        ensures
            screen_key_handled(*old(self), key, outside, *final(self), command),
    {
        reveal(screen_key_handled);
        if self.screen != Screen::Chat && self.screen != Screen::Benchmarks
            && self.handle_list_navigation(key.code) {
            return if self.screen == Screen::Models {
                self.load_more_if_needed()
            } else {
                None
            };
        }
        if self.load_dialog.is_some() {
            return self.handle_load_key(key.code);
        }
        match self.screen {
            Screen::Chat => self.handle_chat_key(key, outside.dropped_input),
            Screen::Settings => self.handle_configuration_key(key),
            Screen::Activity => self.handle_activity_key(key.code),
            Screen::Models => self.handle_models_key(key.code, outside.catalog_key),
            Screen::Benchmarks => self.handle_benchmark_key(key),
            Screen::Overview => None,
        }
    }

    /// A key event.
    fn handle_key(&mut self, key: KeyEvent, outside: Surroundings) -> (step: Step)
        ensures
            key_handled(*old(self), key, outside, *final(self), step),
    {
        reveal(key_handled);
        let pressed = key.kind == KeyEventKind::Press;
        if self.dismiss_help(key) {
            return Step { exit: false, command: None };
        }
        if self.remove_dialog.is_some() {
            let command = if pressed {
                self.handle_remove_key(key.code)
            } else {
                None
            };
            return Step { exit: false, command };
        }
        if self.chat_settings_dialog.is_some() {
            let command = if pressed {
                self.handle_chat_settings_key(key.code)
            } else {
                None
            };
            return Step { exit: false, command };
        }
        if self.configuration_edit.is_some() && pressed {
            let command = self.handle_configuration_edit(key);
            return Step { exit: false, command };
        }
        if self.open_help(key) {
            return Step { exit: false, command: None };
        }
        if self.editing_search {
            let command = self.handle_search_key(key.code, outside.catalog_key);
            return Step { exit: false, command };
        }
        if !pressed {
            return Step { exit: false, command: None };
        }
        let ghost before = *self;
        match self.handle_navigation_key(key) {
            Some(exit) => {
                proof {
                    assert(navigation_step(before, key, *self, Some(exit)));
                }
                Step { exit, command: None }
            },
            None => {
                proof {
                    assert forall|next: App, result: Option<bool>|
                        navigation_step(before, key, next, result) implies result is None by {}
                }
                let command = self.handle_screen_key(key, outside);
                Step { exit: false, command }
            },
        }
    }

    /// A mouse event; `key` is the runtime's configuration key for the selected search result.
    fn handle_mouse(&mut self, mouse: MouseEvent, key: Option<String>) -> (command: Option<Command>)
        requires
            left_press(mouse.kind) ==> rows_addressable(*old(self)),
        ensures
            mouse_handled(*old(self), mouse, key, *final(self), command),
    {
        reveal(mouse_handled);
        if self.help_open {
            if mouse.kind == MouseEventKind::Down(MouseButton::Left) {
                self.help_open = false;
            }
            return None;
        }
        let available = self.load_dialog.is_none() && self.chat_settings_dialog.is_none()
            && self.remove_dialog.is_none() && self.configuration_edit.is_none()
            && !self.navigation.exit_dialog;
        let left = mouse.kind == MouseEventKind::Down(MouseButton::Left) || mouse.kind
            == MouseEventKind::Up(MouseButton::Left);
        if available && left && self.handle_workspace_click(mouse.column, mouse.row) {
            return None;
        }
        self.handle_content_mouse(mouse, key)
    }

    /// Handles one terminal event, or its absence when the event stream ended; `outside`
    /// holds what the surroundings report for it.
    pub fn handle(&mut self, event: Option<Event>, outside: Surroundings) -> (step: Step)
        requires
            needs_rows(event) ==> rows_addressable(*old(self)),
        ensures
            event_handled(*old(self), event, outside, *final(self), step),
    {
        let event = match event {
            Some(event) => event,
            None => return Step { exit: true, command: None },
        };
        if force_quit(&event) {
            return Step { exit: true, command: None };
        }
        match event {
            Event::Mouse(mouse) => {
                let command = self.handle_mouse(mouse, outside.catalog_key);
                Step { exit: false, command }
            },
            Event::Paste(value) => {
                let command = if self.screen == Screen::Chat {
                    self.handle_chat_paste(value.as_str(), outside.dropped_paste)
                } else {
                    None
                };
                Step { exit: false, command }
            },
            Event::Key(key) => self.handle_key(key, outside),
            Event::Other => Step { exit: false, command: None },
        }
    }
}

} // verus!
