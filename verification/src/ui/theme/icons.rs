//! A consistent icon set.
use vstd::prelude::*;

verus! {

pub const CHECKBOX_EMPTY: &'static str = "○";
pub const CHECKBOX_PROGRESS: &'static str = "◐";
pub const CHECKBOX_DONE: &'static str = "●";
pub const CHECKBOX_ARCHIVED: &'static str = "◌";
pub const PRIORITY_URGENT: &'static str = "▲";
pub const PRIORITY_HIGH: &'static str = "△";
pub const PRIORITY_LOW: &'static str = "▽";
pub const ARROW_RIGHT: &'static str = "→";
pub const ARROW_LEFT: &'static str = "←";
pub const CHEVRON_RIGHT: &'static str = "›";
pub const CHEVRON_DOWN: &'static str = "⌄";
pub const SELECTOR: &'static str = "▸";
pub const BULLET: &'static str = "•";
pub const PROJECT_PREFIX: &'static str = "@";
pub const TAG_PREFIX: &'static str = "#";
pub const CHECK: &'static str = "✓";
pub const CROSS: &'static str = "✗";
pub const WARNING_ICON: &'static str = "⚠";
pub const INFO_ICON: &'static str = "ℹ";
pub const SPARKLE: &'static str = "✦";
pub const STAR: &'static str = "★";
pub const DIAMOND: &'static str = "◆";
pub const CIRCLE: &'static str = "●";
pub const DOT: &'static str = "·";
pub const LINE_HORIZONTAL: &'static str = "─";
pub const LINE_VERTICAL: &'static str = "│";
pub const CORNER_TL: &'static str = "╭";
pub const CORNER_TR: &'static str = "╮";
pub const CORNER_BL: &'static str = "╰";
pub const CORNER_BR: &'static str = "╯";
pub const PROGRESS_EMPTY: &'static str = "░";
pub const PROGRESS_PARTIAL: &'static str = "▒";
pub const PROGRESS_FULL: &'static str = "█";

} // verus!
