//! The workspace tabs and the movement between them.
use vstd::prelude::*;

use crate::input::KeyCode;

verus! {

/// The workspace tabs of the dashboard.
#[derive(Debug, Clone, Copy, PartialEq, Eq, Structural)]
pub enum Screen {
    Overview,
    Models,
    Chat,
    Settings,
    Activity,
    Benchmarks,
}

/// Which catalog results the model search shows.
#[derive(Debug, Clone, Copy, PartialEq, Eq, Structural)]
pub enum CatalogFilter {
    Compatible,
    All,
}

/// Number of workspace tabs.
pub const TAB_COUNT: usize = 6;

/// Terminal row of the workspace tab bar.
pub const WORKSPACE_ROW: u16 = 4;

/// First column of the tab bar's content, inside its border.
pub const WORKSPACE_CONTENT_X: u16 = 1;

/// Width of the bar's prefix before the first tab.
pub const WORKSPACE_PREFIX_WIDTH: u16 = 12;

/// Position of a screen in the tab bar, counted from zero.
pub open spec fn screen_index(screen: Screen) -> int {
    match screen {
        Screen::Overview => 0,
        Screen::Models => 1,
        Screen::Chat => 2,
        Screen::Settings => 3,
        Screen::Activity => 4,
        Screen::Benchmarks => 5,
    }
}

/// The screen at a tab position, counted from zero modulo the number of tabs.
pub open spec fn screen_at(index: int) -> Screen {
    let i = index % 6;
    if i == 0 {
        Screen::Overview
    } else if i == 1 {
        Screen::Models
    } else if i == 2 {
        Screen::Chat
    } else if i == 3 {
        Screen::Settings
    } else if i == 4 {
        Screen::Activity
    } else {
        Screen::Benchmarks
    }
}

/// Width in cells of a screen's tab.
pub open spec fn spec_tab_width(screen: Screen) -> int {
    match screen {
        Screen::Overview => 16,
        Screen::Models => 14,
        Screen::Chat => 12,
        Screen::Settings => 16,
        Screen::Activity => 16,
        Screen::Benchmarks => 13,
    }
}

/// First column of the tab at position `index`: the tabs follow the prefix side by side.
pub open spec fn tab_left(index: int) -> int
    decreases index,
{
    if index <= 0 {
        WORKSPACE_CONTENT_X + WORKSPACE_PREFIX_WIDTH
    } else {
        tab_left(index - 1) + spec_tab_width(screen_at(index - 1))
    }
}

/// Whether the cell at `column`, `row` lies on the tab of `screen`.
pub open spec fn on_tab(screen: Screen, column: int, row: int) -> bool {
    &&& row == WORKSPACE_ROW
    &&& tab_left(screen_index(screen)) <= column < tab_left(screen_index(screen)) + spec_tab_width(
        screen,
    )
}

/// The tab after `screen`, wrapping from the last tab to the first.
pub fn next_screen(screen: Screen) -> (next: Screen)
    ensures
        next == screen_at(screen_index(screen) + 1),
{
    match screen {
        Screen::Overview => Screen::Models,
        Screen::Models => Screen::Chat,
        Screen::Chat => Screen::Settings,
        Screen::Settings => Screen::Activity,
        Screen::Activity => Screen::Benchmarks,
        Screen::Benchmarks => Screen::Overview,
    }
}

/// The tab before `screen`, wrapping from the first tab to the last.
pub fn previous_screen(screen: Screen) -> (previous: Screen)
    ensures
        previous == screen_at(screen_index(screen) + 5),
{
    match screen {
        Screen::Overview => Screen::Benchmarks,
        Screen::Models => Screen::Overview,
        Screen::Chat => Screen::Models,
        Screen::Settings => Screen::Chat,
        Screen::Activity => Screen::Settings,
        Screen::Benchmarks => Screen::Activity,
    }
}

/// The number shown on a screen's tab, which is also its function key.
pub fn tab_number(screen: Screen) -> (number: u8)
    ensures
        number == screen_index(screen) + 1,
{
    match screen {
        Screen::Overview => 1,
        Screen::Models => 2,
        Screen::Chat => 3,
        Screen::Settings => 4,
        Screen::Activity => 5,
        Screen::Benchmarks => 6,
    }
}

/// The name on a screen's tab.
pub open spec fn tab_label_chars(screen: Screen) -> Seq<char> {
    match screen {
        Screen::Overview => "Overview"@,
        Screen::Models => "Models"@,
        Screen::Chat => "Chat"@,
        Screen::Settings => "Settings"@,
        Screen::Activity => "Activity"@,
        Screen::Benchmarks => "Bench"@,
    }
}

/// The name shown on a screen's tab.
pub fn tab_label(screen: Screen) -> (label: &'static str)
    ensures
        label@ == tab_label_chars(screen),
{
    match screen {
        Screen::Overview => "Overview",
        Screen::Models => "Models",
        Screen::Chat => "Chat",
        Screen::Settings => "Settings",
        Screen::Activity => "Activity",
        Screen::Benchmarks => "Bench",
    }
}

/// Width in cells of a screen's tab.
pub fn tab_width(screen: Screen) -> (width: u16)
    ensures
        width == spec_tab_width(screen),
{
    match screen {
        Screen::Overview => 16,
        Screen::Models => 14,
        Screen::Chat => 12,
        Screen::Settings => 16,
        Screen::Activity => 16,
        Screen::Benchmarks => 13,
    }
}

/// The screen that a function key opens: F1 to F6 in tab order.
pub fn function_key_screen(code: KeyCode) -> (screen: Option<Screen>)
    ensures
        screen == (match code {
            KeyCode::F(n) => if 1 <= n <= 6 {
                Some(screen_at(n - 1))
            } else {
                None
            },
            _ => None,
        }),
{
    match code {
        KeyCode::F(1) => Some(Screen::Overview),
        KeyCode::F(2) => Some(Screen::Models),
        KeyCode::F(3) => Some(Screen::Chat),
        KeyCode::F(4) => Some(Screen::Settings),
        KeyCode::F(5) => Some(Screen::Activity),
        KeyCode::F(6) => Some(Screen::Benchmarks),
        _ => None,
    }
}

/// The tab under the cell at `column`, `row`, if any.
pub fn workspace_tab_at(column: u16, row: u16) -> (hit: Option<Screen>)
    ensures
        hit matches Some(screen) ==> on_tab(screen, column as int, row as int),
        hit is None ==> forall|screen: Screen| !on_tab(screen, column as int, row as int),
{
    if row != WORKSPACE_ROW {
        return None;
    }
    proof {
        reveal_with_fuel(tab_left, 7);
    }
    let mut left: u16 = WORKSPACE_CONTENT_X + WORKSPACE_PREFIX_WIDTH;
    let mut index: usize = 0;
    while index < TAB_COUNT
        invariant
            index <= TAB_COUNT,
            left == tab_left(index as int),
            row == WORKSPACE_ROW,
            forall|i: int| 0 <= i < index ==> !on_tab(#[trigger] screen_at(i), column as int, row as int),
        decreases TAB_COUNT - index,
    {
        let screen = tab_at(index);
        let right = left + tab_width(screen);
        if left <= column && column < right {
            return Some(screen);
        }
        left = right;
        index += 1;
    }
    proof {
        assert forall|screen: Screen| !on_tab(screen, column as int, row as int) by {
            let i = screen_index(screen);
            assert(screen_at(i) == screen);
        }
    }
    None
}

/// The screen at a tab position below the number of tabs.
fn tab_at(index: usize) -> (screen: Screen)
    requires
        index < TAB_COUNT,
    ensures
        screen == screen_at(index as int),
        screen_index(screen) == index,
{
    if index == 0 {
        Screen::Overview
    } else if index == 1 {
        Screen::Models
    } else if index == 2 {
        Screen::Chat
    } else if index == 3 {
        Screen::Settings
    } else if index == 4 {
        Screen::Activity
    } else {
        Screen::Benchmarks
    }
}

/// Going forward then back, or back then forward, returns to the same tab.
pub proof fn lemma_next_previous_inverse(screen: Screen)
    ensures
        screen_at(screen_index(screen_at(screen_index(screen) + 1)) + 5) == screen,
        screen_at(screen_index(screen_at(screen_index(screen) + 5)) + 1) == screen,
{
}

/// Six steps forward visit every tab once and return to the start.
pub proof fn lemma_tab_cycle(screen: Screen)
    ensures
        screen_at(screen_index(screen) + 6) == screen,
        forall|i: int, j: int|
            0 <= i < j < 6 ==> #[trigger] screen_at(screen_index(screen) + i) != #[trigger] screen_at(
                screen_index(screen) + j,
            ),
{
}

/// The function key printed on each tab opens that tab.
pub proof fn lemma_function_keys_match_tabs(screen: Screen)
    ensures
        screen_at(screen_index(screen)) == screen,
        1 <= screen_index(screen) + 1 <= 6,
{
}

/// No cell lies on two tabs.
pub proof fn lemma_tabs_disjoint(a: Screen, b: Screen, column: int, row: int)
    requires
        on_tab(a, column, row),
        on_tab(b, column, row),
    ensures
        a == b,
{
    reveal_with_fuel(tab_left, 7);
}

} // verus!
