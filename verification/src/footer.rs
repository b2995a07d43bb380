//! The shortcut footer and the help overlay: which keys each view offers, and how many of
//! them fit.
use vstd::prelude::*;

use crate::app::{App, ChatStatus};
use crate::dialogs::{ChatSettingsStatus, LoadStatus};
use crate::screen::Screen;
use crate::text::{pad_right, padded};

verus! {

/// A key and what it does, as their texts.
pub type Shortcut = (String, String);

/// The texts of a shortcut.
pub open spec fn shortcut_view(s: Shortcut) -> (Seq<char>, Seq<char>) {
    (s.0@, s.1@)
}

/// The texts of shortcuts.
pub open spec fn shortcut_views(items: Seq<Shortcut>) -> Seq<(Seq<char>, Seq<char>)> {
    items.map_values(|s: Shortcut| shortcut_view(s))
}

/// The footer's shortcuts for the load dialog in `status`.
pub open spec fn load_shortcuts(status: LoadStatus) -> Seq<(Seq<char>, Seq<char>)> {
    match status {
        LoadStatus::Inspecting => seq![("Esc"@, "quit"@), ("x"@, "cancel"@)],
        LoadStatus::Editing => seq![
            ("Esc"@, "quit"@),
            ("x"@, "cancel"@),
            ("↑/↓ / Tab"@, "field"@),
            ("←/→ / type"@, "value"@),
            ("Enter"@, "load"@),
            ("f"@, "force"@),
        ],
        LoadStatus::Loading => seq![("Esc"@, "quit"@)],
    }
}

/// The shortcuts that a screen adds to the footer.
pub open spec fn screen_shortcuts(screen: Screen, status: ChatStatus) -> Seq<(Seq<char>, Seq<char>)> {
    match screen {
        Screen::Activity => seq![("↑/↓"@, "select"@), ("x"@, "cancel"@), ("PgUp/PgDn"@, "page"@)],
        Screen::Models => seq![
            ("↑/↓"@, "select"@),
            ("Enter"@, "action"@),
            ("/"@, "search"@),
            ("l/u"@, "load/unload"@),
            ("r"@, "remove"@),
            ("i"@, "filter"@),
            ("x"@, "cancel"@),
        ],
        Screen::Chat => if status == ChatStatus::Generating {
            seq![("x"@, "cancel"@), ("↑/↓"@, "scroll"@), ("PgUp/PgDn"@, "page"@)]
        } else {
            seq![
                ("Enter"@, "send"@),
                ("↑/↓"@, "scroll"@),
                ("Ctrl+←/→"@, "model"@),
                ("Ctrl+P"@, "parameters"@),
                ("Ctrl+T"@, "reasoning"@),
                ("Ctrl+K"@, "clear"@),
                ("Ctrl+D"@, "detach"@),
            ]
        },
        Screen::Settings => seq![
            ("↑/↓"@, "select"@),
            ("Enter"@, "edit"@),
            ("v"@, "raw/table"@),
            ("t"@, "test token"@),
            ("r"@, "remove"@),
        ],
        _ => Seq::empty(),
    }
}

/// The footer's shortcuts, most important first: those of the open overlay or dialog, else
/// those of the workspace and its screen.
pub open spec fn footer_shortcuts(app: App) -> Seq<(Seq<char>, Seq<char>)> {
    if app.help_open {
        seq![("Esc"@, "close"@), ("?"@, "close"@), ("Enter"@, "close"@), ("Ctrl+C"@, "quit"@)]
    } else if app.navigation.exit_dialog {
        seq![("Esc / n"@, "stay"@), ("Enter / y"@, "quit"@), ("Ctrl+C"@, "force quit"@)]
    } else if app.remove_dialog is Some {
        seq![("Esc / n"@, "cancel"@), ("Enter / y"@, "remove"@), ("Ctrl+C"@, "quit"@)]
    } else if app.chat_settings_dialog is Some {
        if app.chat_settings_dialog->0.status == ChatSettingsStatus::Editing {
            seq![
                ("Esc / x"@, "close"@),
                ("↑/↓ / Tab"@, "field"@),
                ("type"@, "edit"@),
                ("Enter"@, "apply"@),
                ("s"@, "save default"@),
            ]
        } else {
            seq![("Esc / x"@, "close"@)]
        }
    } else if app.configuration_edit is Some {
        seq![("Esc"@, "cancel"@), ("type"@, "edit"@), ("Enter"@, "save"@)]
    } else if app.editing_search {
        seq![
            ("Esc"@, "close"@),
            ("type"@, "search"@),
            ("↑/↓"@, "select"@),
            ("Enter"@, "action"@),
            ("PgUp/PgDn"@, "page"@),
        ]
    } else if app.load_dialog is Some {
        load_shortcuts(app.load_dialog->0.status)
    } else {
        let help = if app.screen != Screen::Chat || app.chat_input@.len() == 0 {
            seq![("?"@, "help"@)]
        } else {
            Seq::empty()
        };
        let quit = if app.screen != Screen::Chat {
            seq![("q"@, "quit"@)]
        } else {
            Seq::empty()
        };
        seq![("Esc"@, "quit"@)] + help + screen_shortcuts(app.screen, app.chat_status) + seq![
            ("Tab/⇧Tab"@, "tabs"@),
            ("F1–F4"@, "switch"@),
        ] + quit + seq![("Ctrl+C"@, "force quit"@)]
    }
}

/// Columns that the footer line of `items` takes: a leading space, then each key, a space
/// and its action, separated by ` · `; every character of these texts takes one column.
pub open spec fn line_width(items: Seq<(Seq<char>, Seq<char>)>) -> int
    decreases items.len(),
{
    if items.len() == 0 {
        1
    } else {
        line_width(items.drop_last()) + (if items.len() > 1 { 3int } else { 0 }) + items.last().0.len()
            + 1 + items.last().1.len()
    }
}

/// Whether the first `k` shortcuts and every shorter run of them fit in `maximum` columns.
pub open spec fn prefix_fits(items: Seq<(Seq<char>, Seq<char>)>, k: int, maximum: int) -> bool {
    forall|j: int| 1 <= j <= k ==> line_width(#[trigger] items.take(j)) <= maximum
}

/// The number of leading shortcuts that the footer shows in `maximum` columns: it adds them
/// in order and stops at the first that does not fit.
pub open spec fn fitted(items: Seq<(Seq<char>, Seq<char>)>, maximum: int, k: int) -> bool {
    &&& 0 <= k <= items.len()
    &&& prefix_fits(items, k, maximum)
    &&& k < items.len() ==> line_width(items.take(k + 1)) > maximum
}

/// Appends a shortcut.
fn push_shortcut(items: &mut Vec<Shortcut>, key: &str, action: &str)
    ensures
        shortcut_views(final(items)@) == shortcut_views(old(items)@).push((key@, action@)),
{
    let ghost pre = items@;
    items.push((key.to_owned(), action.to_owned()));
    proof {
        assert(shortcut_views(items@) =~= shortcut_views(pre).push((key@, action@)));
    }
}

/// The footer's shortcuts for the load dialog in `status`.
fn load(status: LoadStatus) -> (items: Vec<Shortcut>)
    ensures
        shortcut_views(items@) == load_shortcuts(status),
{
    let mut items: Vec<Shortcut> = Vec::new();
    push_shortcut(&mut items, "Esc", "quit");
    match status {
        LoadStatus::Inspecting => push_shortcut(&mut items, "x", "cancel"),
        LoadStatus::Editing => {
            push_shortcut(&mut items, "x", "cancel");
            push_shortcut(&mut items, "↑/↓ / Tab", "field");
            push_shortcut(&mut items, "←/→ / type", "value");
            push_shortcut(&mut items, "Enter", "load");
            push_shortcut(&mut items, "f", "force");
        },
        LoadStatus::Loading => {},
    }
    proof {
        assert(shortcut_views(items@) =~= load_shortcuts(status));
    }
    items
}

/// Appends the shortcuts that `screen` adds to the footer.
fn add_screen(items: &mut Vec<Shortcut>, screen: Screen, status: ChatStatus)
    ensures
        shortcut_views(final(items)@) == shortcut_views(old(items)@) + screen_shortcuts(screen, status),
{
    let ghost pre = shortcut_views(items@);
    match screen {
        Screen::Activity => {
            push_shortcut(items, "↑/↓", "select");
            push_shortcut(items, "x", "cancel");
            push_shortcut(items, "PgUp/PgDn", "page");
        },
        Screen::Models => {
            push_shortcut(items, "↑/↓", "select");
            push_shortcut(items, "Enter", "action");
            push_shortcut(items, "/", "search");
            push_shortcut(items, "l/u", "load/unload");
            push_shortcut(items, "r", "remove");
            push_shortcut(items, "i", "filter");
            push_shortcut(items, "x", "cancel");
        },
        Screen::Chat => {
            if status == ChatStatus::Generating {
                push_shortcut(items, "x", "cancel");
                push_shortcut(items, "↑/↓", "scroll");
                push_shortcut(items, "PgUp/PgDn", "page");
            } else {
                push_shortcut(items, "Enter", "send");
                push_shortcut(items, "↑/↓", "scroll");
                push_shortcut(items, "Ctrl+←/→", "model");
                push_shortcut(items, "Ctrl+P", "parameters");
                push_shortcut(items, "Ctrl+T", "reasoning");
                push_shortcut(items, "Ctrl+K", "clear");
                push_shortcut(items, "Ctrl+D", "detach");
            }
        },
        Screen::Settings => {
            push_shortcut(items, "↑/↓", "select");
            push_shortcut(items, "Enter", "edit");
            push_shortcut(items, "v", "raw/table");
            push_shortcut(items, "t", "test token");
            push_shortcut(items, "r", "remove");
        },
        _ => {},
    }
    proof {
        assert(shortcut_views(items@) =~= pre + screen_shortcuts(screen, status));
    }
}

impl App {
    /// The footer's shortcuts, most important first.
    pub fn footer_shortcuts(&self) -> (items: Vec<Shortcut>)
        ensures
            shortcut_views(items@) == footer_shortcuts(*self),
    {
        let mut items: Vec<Shortcut> = Vec::new();
        if self.help_open {
            push_shortcut(&mut items, "Esc", "close");
            push_shortcut(&mut items, "?", "close");
            push_shortcut(&mut items, "Enter", "close");
            push_shortcut(&mut items, "Ctrl+C", "quit");
        } else if self.navigation.exit_dialog {
            push_shortcut(&mut items, "Esc / n", "stay");
            push_shortcut(&mut items, "Enter / y", "quit");
            push_shortcut(&mut items, "Ctrl+C", "force quit");
        } else if self.remove_dialog.is_some() {
            push_shortcut(&mut items, "Esc / n", "cancel");
            push_shortcut(&mut items, "Enter / y", "remove");
            push_shortcut(&mut items, "Ctrl+C", "quit");
        } else if let Some(dialog) = &self.chat_settings_dialog {
            push_shortcut(&mut items, "Esc / x", "close");
            if dialog.status == ChatSettingsStatus::Editing {
                push_shortcut(&mut items, "↑/↓ / Tab", "field");
                push_shortcut(&mut items, "type", "edit");
                push_shortcut(&mut items, "Enter", "apply");
                push_shortcut(&mut items, "s", "save default");
            }
        } else if self.configuration_edit.is_some() {
            push_shortcut(&mut items, "Esc", "cancel");
            push_shortcut(&mut items, "type", "edit");
            push_shortcut(&mut items, "Enter", "save");
        } else if self.editing_search {
            push_shortcut(&mut items, "Esc", "close");
            push_shortcut(&mut items, "type", "search");
            push_shortcut(&mut items, "↑/↓", "select");
            push_shortcut(&mut items, "Enter", "action");
            push_shortcut(&mut items, "PgUp/PgDn", "page");
        } else if let Some(dialog) = &self.load_dialog {
            items = load(dialog.status);
        } else {
            let ghost start = shortcut_views(items@);
            push_shortcut(&mut items, "Esc", "quit");
            if self.screen != Screen::Chat || self.chat_input.as_str().is_empty() {
                push_shortcut(&mut items, "?", "help");
            }
            add_screen(&mut items, self.screen, self.chat_status);
            push_shortcut(&mut items, "Tab/⇧Tab", "tabs");
            push_shortcut(&mut items, "F1–F4", "switch");
            if self.screen != Screen::Chat {
                push_shortcut(&mut items, "q", "quit");
            }
            push_shortcut(&mut items, "Ctrl+C", "force quit");
        }
        proof {
            assert(shortcut_views(items@) =~= footer_shortcuts(*self));
        }
        items
    }
}

/// Columns that one shortcut adds to the footer line after `index` others, when they do not
/// exceed `room`.
fn added_width(item: &Shortcut, index: usize, room: usize) -> (width: Option<usize>)
    ensures
        match width {
            Some(w) => w == (if index > 0 { 3int } else { 0 }) + item.0@.len() + 1 + item.1@.len()
                && w <= room,
            None => (if index > 0 { 3int } else { 0 }) + item.0@.len() + 1 + item.1@.len() > room,
        },
{
    let key = vstd::string::StrSliceExecFns::unicode_len(item.0.as_str());
    let action = vstd::string::StrSliceExecFns::unicode_len(item.1.as_str());
    let separator: usize = if index > 0 { 3 } else { 0 };
    if key > room || action > room {
        return None;
    }
    let texts = key as u128 + action as u128 + 1 + separator as u128;
    if texts > room as u128 {
        None
    } else {
        Some(texts as usize)
    }
}

/// The number of leading shortcuts that the footer shows in `maximum` columns.
pub fn fit_count(items: &Vec<Shortcut>, maximum: usize) -> (count: usize)
    ensures
        fitted(shortcut_views(items@), maximum as int, count as int),
{
    let ghost views = shortcut_views(items@);
    if maximum < 1 {
        proof {
            if items@.len() > 0 {
                assert(views.take(1).drop_last() =~= Seq::<(Seq<char>, Seq<char>)>::empty());
                assert(views.take(1).last() == views[0]);
                assert(line_width(views.take(1).drop_last()) == 1);
                assert(line_width(views.take(1)) >= 2);
            }
        }
        return 0;
    }
    let mut used: usize = 1;
    let mut i: usize = 0;
    proof {
        assert(views.take(0) =~= Seq::<(Seq<char>, Seq<char>)>::empty());
    }
    while i < items.len()
        invariant
            views == shortcut_views(items@),
            i <= items@.len(),
            1 <= used <= maximum,
            used == line_width(views.take(i as int)),
            prefix_fits(views, i as int, maximum as int),
        decreases items@.len() - i,
    {
        proof {
            assert(views.take(i + 1).drop_last() =~= views.take(i as int));
            assert(views.take(i + 1).last() == shortcut_view(items@[i as int]));
        }
        match added_width(&items[i], i, maximum - used) {
            Some(width) => {
                used = used + width;
                i += 1;
                proof {
                    assert forall|j: int| 1 <= j <= i implies line_width(
                        #[trigger] views.take(j),
                    ) <= maximum by {
                        if j < i {
                        }
                    }
                }
            },
            None => {
                return i;
            },
        }
    }
    i
}

/// A help line: the key, indented and padded to its column, then what it does.
pub open spec fn help_line(key: Seq<char>, action: Seq<char>) -> (Seq<char>, Seq<char>) {
    ("  "@ + padded(key, 22), action)
}

/// The help lines of a screen.
pub open spec fn screen_help(screen: Screen) -> Seq<(Seq<char>, Seq<char>)> {
    match screen {
        Screen::Activity => seq![
            help_line("↑/↓ · PgUp/PgDn"@, "move through recent operations"@),
            help_line("Home / End"@, "first / last operation"@),
            help_line("X"@, "cancel selected operation when supported"@),
        ],
        Screen::Models => seq![
            help_line("↑/↓ · PgUp/PgDn"@, "move through models"@),
            help_line("Home / End"@, "first / last model"@),
            help_line("mouse wheel"@, "scroll models"@),
            help_line("Enter / click"@, "download, load, or unload selected model"@),
            help_line("/"@, "search Hugging Face"@),
            help_line("i"@, "show or hide incompatible models"@),
            help_line("d"@, "download"@),
            help_line("l"@, "load"@),
            help_line("u"@, "unload"@),
            help_line("r"@, "remove"@),
            help_line("x"@, "cancel active model operation"@),
            help_line("f"@, "toggle forced load in the load dialog"@),
        ],
        Screen::Chat => seq![
            help_line("Enter"@, "send message"@),
            help_line("drop image file"@, "attach image to each prompt"@),
            help_line("↑/↓ · PgUp/PgDn"@, "scroll conversation"@),
            help_line("Home / End"@, "top / bottom of conversation"@),
            help_line("Ctrl+←/→"@, "previous / next loaded model"@),
            help_line("Ctrl+K"@, "clear conversation"@),
            help_line("Ctrl+D"@, "remove attached image"@),
            help_line("Ctrl+P"@, "edit one-off generation parameters"@),
            help_line("Ctrl+T / click"@, "expand or collapse model reasoning"@),
            help_line("X"@, "cancel active generation"@),
        ],
        Screen::Settings => seq![
            help_line("↑/↓ · PgUp/PgDn"@, "move through settings"@),
            help_line("Home / End"@, "first / last setting"@),
            help_line("Enter / click"@, "select or edit a setting"@),
            help_line("t"@, "test Hugging Face token"@),
            help_line("r"@, "remove selected secret"@),
            help_line("v"@, "toggle settings table / raw TOML"@),
        ],
        _ => Seq::empty(),
    }
}

/// The lines of the help overlay: the workspace's keys, an empty line, then the screen's.
pub open spec fn help_lines(screen: Screen) -> Seq<(Seq<char>, Seq<char>)> {
    seq![
        help_line("Tab / Shift+Tab"@, "next / previous tab"@),
        help_line("F1 … F4"@, "open a tab directly"@),
        help_line("q"@, "quit outside the chat input"@),
        help_line("Ctrl+C"@, "quit immediately from any view"@),
        help_line("? / Esc"@, "close this help"@),
        (Seq::<char>::empty(), Seq::<char>::empty()),
    ] + screen_help(screen)
}

/// The title of the help overlay of a screen.
pub open spec fn help_title_chars(screen: Screen) -> Seq<char> {
    match screen {
        Screen::Overview => "OVERVIEW"@,
        Screen::Models => "MODELS"@,
        Screen::Chat => "CHAT"@,
        Screen::Settings => "SETTINGS"@,
        Screen::Activity => "ACTIVITY"@,
        Screen::Benchmarks => "BENCHMARKS"@,
    }
}

/// Appends a help line.
fn push_help(lines: &mut Vec<Shortcut>, key: &str, action: &str)
    ensures
        shortcut_views(final(lines)@) == shortcut_views(old(lines)@).push(help_line(key@, action@)),
{
    let ghost pre = lines@;
    let mut text = "  ".to_owned();
    text.append(pad_right(key, 22).as_str());
    lines.push((text, action.to_owned()));
    proof {
        assert(shortcut_views(lines@) =~= shortcut_views(pre).push(help_line(key@, action@)));
    }
}

/// The lines of the help overlay of `screen`: each a key column and what the key does.
pub fn help(screen: Screen) -> (lines: Vec<Shortcut>)
    ensures
        shortcut_views(lines@) == help_lines(screen),
{
    let mut lines: Vec<Shortcut> = Vec::new();
    push_help(&mut lines, "Tab / Shift+Tab", "next / previous tab");
    push_help(&mut lines, "F1 … F4", "open a tab directly");
    push_help(&mut lines, "q", "quit outside the chat input");
    push_help(&mut lines, "Ctrl+C", "quit immediately from any view");
    push_help(&mut lines, "? / Esc", "close this help");
    push_shortcut(&mut lines, "", "");
    proof {
        reveal_strlit("");
        assert(""@ =~= Seq::<char>::empty());
    }
    let ghost general = shortcut_views(lines@);
    match screen {
        Screen::Activity => {
            push_help(&mut lines, "↑/↓ · PgUp/PgDn", "move through recent operations");
            push_help(&mut lines, "Home / End", "first / last operation");
            push_help(&mut lines, "X", "cancel selected operation when supported");
        },
        Screen::Models => {
            push_help(&mut lines, "↑/↓ · PgUp/PgDn", "move through models");
            push_help(&mut lines, "Home / End", "first / last model");
            push_help(&mut lines, "mouse wheel", "scroll models");
            push_help(&mut lines, "Enter / click", "download, load, or unload selected model");
            push_help(&mut lines, "/", "search Hugging Face");
            push_help(&mut lines, "i", "show or hide incompatible models");
            push_help(&mut lines, "d", "download");
            push_help(&mut lines, "l", "load");
            push_help(&mut lines, "u", "unload");
            push_help(&mut lines, "r", "remove");
            push_help(&mut lines, "x", "cancel active model operation");
            push_help(&mut lines, "f", "toggle forced load in the load dialog");
        },
        Screen::Chat => {
            push_help(&mut lines, "Enter", "send message");
            push_help(&mut lines, "drop image file", "attach image to each prompt");
            push_help(&mut lines, "↑/↓ · PgUp/PgDn", "scroll conversation");
            push_help(&mut lines, "Home / End", "top / bottom of conversation");
            push_help(&mut lines, "Ctrl+←/→", "previous / next loaded model");
            push_help(&mut lines, "Ctrl+K", "clear conversation");
            push_help(&mut lines, "Ctrl+D", "remove attached image");
            push_help(&mut lines, "Ctrl+P", "edit one-off generation parameters");
            push_help(&mut lines, "Ctrl+T / click", "expand or collapse model reasoning");
            push_help(&mut lines, "X", "cancel active generation");
        },
        Screen::Settings => {
            push_help(&mut lines, "↑/↓ · PgUp/PgDn", "move through settings");
            push_help(&mut lines, "Home / End", "first / last setting");
            push_help(&mut lines, "Enter / click", "select or edit a setting");
            push_help(&mut lines, "t", "test Hugging Face token");
            push_help(&mut lines, "r", "remove selected secret");
            push_help(&mut lines, "v", "toggle settings table / raw TOML");
        },
        _ => {},
    }
    proof {
        assert(shortcut_views(lines@) =~= general + screen_help(screen));
    }
    lines
}

/// The title of the help overlay of `screen`.
pub fn help_title(screen: Screen) -> (title: &'static str)
    ensures
        title@ == help_title_chars(screen),
{
    match screen {
        Screen::Overview => "OVERVIEW",
        Screen::Models => "MODELS",
        Screen::Chat => "CHAT",
        Screen::Settings => "SETTINGS",
        Screen::Activity => "ACTIVITY",
        Screen::Benchmarks => "BENCHMARKS",
    }
}

} // verus!
