//! What a render asks to be drawn, in cells of the logical grid.

use vstd::prelude::*;
use crate::events::EventType;
use crate::geometry::{Rect, HEIGHT, WIDTH};

verus! {

/// Rows above the content area: the status bar and a separator.
pub const STATUS_ROWS: u16 = 2;

/// A button drawn with a border around a centered label.
#[derive(Debug, Clone, PartialEq, Eq)]
pub struct BorderedButton(pub String);

/// One element to draw.
#[derive(Debug, Clone, PartialEq, Eq)]
pub enum Widget {
    /// The link back to the previous view, on one row.
    Back(Rect),
    /// A dimmed centered line.
    Note(Rect, String),
    /// A bold centered line.
    Title(Rect, String),
    /// A bordered button.
    Button(Rect, BorderedButton),
    /// A bordered text field.
    Field(Rect, String),
}

/// The elements of a frame's content and the regions it waits on.
#[derive(Debug, Clone, PartialEq, Eq)]
pub struct Rendered {
    pub widgets: Vec<Widget>,
    pub events: EventType,
}

/// The whole screen.
pub open spec fn spec_screen_area() -> Rect {
    Rect { x: 0, y: 0, width: WIDTH, height: HEIGHT }
}

/// The area below the status bar, where screens draw.
pub open spec fn spec_content_area() -> Rect {
    Rect { x: 0, y: STATUS_ROWS, width: WIDTH, height: (HEIGHT - STATUS_ROWS) as u16 }
}

pub fn content_area() -> (r: Rect)
    ensures
        r == spec_content_area(),
{
    Rect { x: 0, y: STATUS_ROWS, width: WIDTH, height: HEIGHT - STATUS_ROWS }
}

/// `v`, saturated at `u16::MAX`.
pub open spec fn sat16(v: int) -> u16 {
    if v > u16::MAX {
        u16::MAX
    } else {
        v as u16
    }
}

/// An area that a screen can lay out in: a border column on each side.
/// Rows saturate at `u16::MAX`.
pub open spec fn area_ok(area: Rect) -> bool {
    &&& area.width >= 2
    &&& area.x < u16::MAX
}

/// The area without its border columns.
pub open spec fn inner_rect(area: Rect) -> Rect {
    Rect { x: (area.x + 1) as u16, y: area.y, width: (area.width - 2) as u16, height: area.height }
}

/// The row `offset` rows below the top of the inner area, `height` rows
/// high.
pub open spec fn inner_row(area: Rect, offset: int, height: u16) -> Rect {
    Rect { x: (area.x + 1) as u16, y: sat16(area.y + offset), width: (area.width - 2) as u16, height }
}

/// The `i`-th of the three-row entries stacked from `first` rows below the
/// top of the inner area.
pub open spec fn entry_rect(area: Rect, first: int, i: int) -> Rect {
    inner_row(area, first + 3 * i, 3)
}

/// An entry that fits below `u16::MAX` starts exactly `first + 3 * i` rows
/// below the area's top, one column in, two columns narrower.
pub proof fn lemma_entry_rect_exact(area: Rect, first: int, i: int)
    requires
        area_ok(area),
        0 <= first,
        0 <= i,
        area.y + first + 3 * i <= u16::MAX,
    ensures
        entry_rect(area, first, i) == (Rect {
            x: (area.x + 1) as u16,
            y: (area.y + first + 3 * i) as u16,
            width: (area.width - 2) as u16,
            height: 3,
        }),
{
}

pub fn make_inner_row(area: Rect, offset: u16, height: u16) -> (r: Rect)
    requires
        area_ok(area),
    ensures
        r == inner_row(area, offset as int, height),
{
    Rect { x: area.x + 1, y: area.y.saturating_add(offset), width: area.width - 2, height }
}

/// The rectangles of `n` stacked three-row entries starting `first` rows
/// below the top of the inner area.
pub fn stacked_entries(area: Rect, first: u16, n: usize) -> (rects: Vec<Rect>)
    requires
        area_ok(area),
    ensures
        rects@.len() == n,
        forall|i: int| 0 <= i < n ==> #[trigger] rects@[i] == entry_rect(area, first as int, i),
{
    let mut rects: Vec<Rect> = Vec::new();
    let mut y: u16 = area.y.saturating_add(first);
    let mut i: usize = 0;
    while i < n
        invariant
            area_ok(area),
            i <= n,
            rects@.len() == i,
            y == sat16(area.y + first + 3 * i),
            forall|j: int| 0 <= j < i ==> #[trigger] rects@[j] == entry_rect(area, first as int, j),
        decreases n - i,
    {
        rects.push(Rect { x: area.x + 1, y, width: area.width - 2, height: 3 });
        y = y.saturating_add(3);
        i = i + 1;
    }
    rects
}

/// Hours of the day and minutes of the hour, `seconds` after midnight of
/// the epoch.
pub fn clock_digits(seconds: u64) -> (hm: (u64, u64))
    ensures
        hm.0 == (seconds / 60) / 60 % 24,
        hm.1 == (seconds / 60) % 60,
        hm.0 < 24,
        hm.1 < 60,
{
    let minutes = seconds / 60;
    let hours = minutes / 60;
    (hours % 24, minutes % 60)
}

} // verus!
