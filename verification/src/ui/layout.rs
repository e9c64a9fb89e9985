//! Screen layout: areas of the terminal and the split between the sidebar
//! and the task list.
use vstd::prelude::*;

verus! {

/// An area of the terminal, in cells.
#[derive(Debug, Clone, Copy, PartialEq, Eq, Structural)]
pub struct Area {
    /// Left column
    pub x: u16,
    /// Top row
    pub y: u16,
    /// Width in cells
    pub width: u16,
    /// Height in cells
    pub height: u16,
}


/// Narrowest sidebar.
pub const SIDEBAR_MIN_WIDTH: u16 = 20;

/// Widest sidebar.
pub const SIDEBAR_MAX_WIDTH: u16 = 35;

/// The sidebar's width for a screen `total_width` wide: a quarter of it,
/// kept between [`SIDEBAR_MIN_WIDTH`] and [`SIDEBAR_MAX_WIDTH`].
pub fn calculate_sidebar_width(total_width: u16) -> (r: u16)
    ensures
        r == if total_width / 4 < SIDEBAR_MIN_WIDTH {
            SIDEBAR_MIN_WIDTH
        } else if total_width / 4 > SIDEBAR_MAX_WIDTH {
            SIDEBAR_MAX_WIDTH
        } else {
            total_width / 4
        },
        SIDEBAR_MIN_WIDTH <= r <= SIDEBAR_MAX_WIDTH,
{
    let target = total_width / 4;
    if target < SIDEBAR_MIN_WIDTH {
        SIDEBAR_MIN_WIDTH
    } else if target > SIDEBAR_MAX_WIDTH {
        SIDEBAR_MAX_WIDTH
    } else {
        target
    }
}

} // verus!
