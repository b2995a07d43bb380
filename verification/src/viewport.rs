//! The visible window of a scrolled list, and the mapping from mouse rows to list entries.
use vstd::prelude::*;

verus! {

/// A rectangle of terminal cells.
#[derive(Debug, Clone, Copy, PartialEq, Eq, Structural)]
pub struct Rect {
    pub x: u16,
    pub y: u16,
    pub width: u16,
    pub height: u16,
}

/// The first column to the right of `r`, saturating at the largest column.
pub open spec fn spec_right(r: Rect) -> int {
    if r.x + r.width <= u16::MAX { r.x + r.width } else { u16::MAX as int }
}

/// The first row below `r`, saturating at the largest row.
pub open spec fn spec_bottom(r: Rect) -> int {
    if r.y + r.height <= u16::MAX { r.y + r.height } else { u16::MAX as int }
}

impl Rect {
    /// The first column to the right of the rectangle.
    pub fn right(self) -> (right: u16)
        ensures
            right == spec_right(self),
    {
        if self.x <= u16::MAX - self.width { self.x + self.width } else { u16::MAX }
    }

    /// The first row below the rectangle.
    pub fn bottom(self) -> (bottom: u16)
        ensures
            bottom == spec_bottom(self),
    {
        if self.y <= u16::MAX - self.height { self.y + self.height } else { u16::MAX }
    }
}

/// A bordered list on screen and the index of its first visible entry.
#[derive(Debug, Clone, Copy, PartialEq, Eq, Structural)]
pub struct ListView {
    pub area: Rect,
    pub offset: usize,
}

/// Entries that fit inside the list's border, at least one.
pub open spec fn visible_rows(area: Rect) -> int {
    if area.height >= 3 { area.height - 2 } else { 1 }
}

/// The first visible entry that keeps `selected` on screen, no later than `count`.
pub open spec fn spec_offset(area: Rect, selected: int, count: int) -> int {
    let next = if selected + 1 <= usize::MAX { selected + 1 } else { usize::MAX as int };
    let lowest = if next > visible_rows(area) { next - visible_rows(area) } else { 0 };
    if lowest <= count { lowest } else { count }
}

/// Whether the cell at `column`, `row` lies inside the border of `area`.
pub open spec fn inside(area: Rect, column: int, row: int) -> bool {
    &&& area.x + 1 <= column < spec_right(area) - 1
    &&& area.y + 1 <= row < spec_bottom(area) - 1
}

impl ListView {
    /// The view of a list of `count` entries whose entry `selected` must be visible.
    pub fn new(area: Rect, selected: usize, count: usize) -> (view: ListView)
        ensures
            view.area == area,
            view.offset == spec_offset(area, selected as int, count as int),
    {
        let visible: usize = if area.height >= 3 { (area.height - 2) as usize } else { 1 };
        let next = if selected < usize::MAX { selected + 1 } else { usize::MAX };
        let lowest = if next > visible { next - visible } else { 0 };
        let offset = if lowest <= count { lowest } else { count };
        proof {
            if selected == usize::MAX {
                assert(visible >= 1);
            }
        }
        ListView { area, offset }
    }

    /// The list entry under the cell at `column`, `row`: none on the border or outside.
    pub fn row(self, column: u16, row: u16) -> (entry: Option<usize>)
        requires
            self.area.x < u16::MAX,
            self.area.y < u16::MAX,
            self.offset <= usize::MAX - u16::MAX,
        ensures
            entry is Some <==> inside(self.area, column as int, row as int),
            entry matches Some(i) ==> i == self.offset + (row - self.area.y - 1),
    {
        let right = self.area.right();
        let bottom = self.area.bottom();
        let inside_x = self.area.x + 1 <= column && right >= 1 && column < right - 1;
        let inside_y = self.area.y + 1 <= row && bottom >= 1 && row < bottom - 1;
        if inside_x && inside_y {
            Some(self.offset + (row - self.area.y - 1) as usize)
        } else {
            None
        }
    }
}

/// The offset keeps the selected entry on screen, and never passes the end of the list.
pub proof fn lemma_selection_visible(area: Rect, selected: int, count: int)
    requires
        0 <= selected < count <= usize::MAX,
    ensures
        0 <= spec_offset(area, selected, count) <= selected,
        selected < spec_offset(area, selected, count) + visible_rows(area),
        spec_offset(area, selected, count) <= count,
{
}

/// A row inside the border maps to an entry below the offset plus the visible rows.
pub proof fn lemma_row_within_window(view: ListView, column: int, row: int)
    requires
        inside(view.area, column, row),
    ensures
        0 <= row - view.area.y - 1 < visible_rows(view.area),
{
}

} // verus!
