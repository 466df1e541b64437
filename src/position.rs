//! Screen positions and the placement of the window next to a pointer.
use vstd::prelude::*;

verus! {

/// Width of the window, in physical pixels; the window is centred on the
/// pointer horizontally.
pub const WINDOW_WIDTH: u32 = 360;

/// Vertical gap between a tray-icon click and the top of the window.
pub const TRAY_OFFSET_Y: u32 = 5;

/// Vertical gap between the cursor and the top of the window.
pub const CURSOR_OFFSET_Y: u32 = 10;

/// A point on the screen, in physical pixels.
#[derive(Clone, Copy, Debug, PartialEq, Eq, Structural)]
pub struct Position {
    pub x: i32,
    pub y: i32,
}

/// A screen coordinate brought into the range a window can be placed at:
/// never negative, never past `i32::MAX`.
pub open spec fn clamp_coord(v: int) -> int {
    if v < 0 {
        0
    } else if v > i32::MAX {
        i32::MAX as int
    } else {
        v
    }
}

/// The top-left corner of a window `width` wide, centred horizontally on
/// `anchor` and `dy` below it, kept on the non-negative part of the screen.
pub open spec fn centered_below_spec(anchor: Position, width: u32, dy: u32) -> Position {
    Position {
        x: clamp_coord(anchor.x - width / 2) as i32,
        y: clamp_coord(anchor.y + dy) as i32,
    }
}

/// Where the window goes after a click on the tray icon at `click`.
pub open spec fn tray_position_spec(click: Position) -> Position {
    centered_below_spec(click, WINDOW_WIDTH, TRAY_OFFSET_Y)
}

/// Where the window goes when shown with the cursor at `cursor`.
pub open spec fn cursor_position_spec(cursor: Position) -> Position {
    centered_below_spec(cursor, WINDOW_WIDTH, CURSOR_OFFSET_Y)
}

/// A position the window can be placed at: both coordinates non-negative.
pub open spec fn on_screen(p: Position) -> bool {
    p.x >= 0 && p.y >= 0
}

fn clamp_i64(v: i64) -> (r: i32)
    ensures
        r as int == clamp_coord(v as int),
{
    if v < 0 {
        0
    } else if v > i32::MAX as i64 {
        i32::MAX
    } else {
        v as i32
    }
}

/// Places a window `width` wide centred on `anchor`, `dy` below it, with
/// coordinates clamped to `0..=i32::MAX`.
pub fn centered_below(anchor: Position, width: u32, dy: u32) -> (r: Position)
    ensures
        r == centered_below_spec(anchor, width, dy),
        on_screen(r),
{
    let x = clamp_i64(anchor.x as i64 - (width / 2) as i64);
    let y = clamp_i64(anchor.y as i64 + dy as i64);
    Position { x, y }
}

/// Position of the window after a click on the tray icon at `click`: half the
/// window width to the left of the click and a little below it.
pub fn tray_show_position(click: Position) -> (r: Position)
    ensures
        r == tray_position_spec(click),
        on_screen(r),
{
    centered_below(click, WINDOW_WIDTH, TRAY_OFFSET_Y)
}

/// Position of the window when shown at the cursor: centred on the cursor
/// horizontally and a little below it.
pub fn cursor_show_position(cursor: Position) -> (r: Position)
    ensures
        r == cursor_position_spec(cursor),
        on_screen(r),
{
    centered_below(cursor, WINDOW_WIDTH, CURSOR_OFFSET_Y)
}

/// Every position computed for showing the window is on screen, whatever the
/// pointer position, also at or beyond the left and top screen edges.
pub proof fn lemma_show_positions_on_screen(anchor: Position, width: u32, dy: u32)
    ensures
        on_screen(centered_below_spec(anchor, width, dy)),
        on_screen(tray_position_spec(anchor)),
        on_screen(cursor_position_spec(anchor)),
{
}

} // verus!
