//! Single-cell-width symbols for terminal output.
use vstd::prelude::*;

verus! {

pub const SUCCESS: &'static str = "\u{2714}";
pub const FAILURE: &'static str = "\u{2716}";
pub const RUNNING: &'static str = "\u{25C9}";
pub const SKIPPED: &'static str = "\u{2298}";
pub const NOT_STARTED: &'static str = "\u{25CB}";
pub const WARNING: &'static str = "\u{26A0}";
pub const INFO: &'static str = "\u{25CF}";
pub const DEBUG: &'static str = "\u{25E6}";
pub const GEAR: &'static str = "\u{2699}";
pub const LOCK: &'static str = "\u{26BF}";
pub const BLOCKED: &'static str = "\u{26D4}";
pub const SEPARATOR: &'static str = "\u{2502}";
pub const ARROW: &'static str = "\u{2192}";
pub const HRULE: &'static str = "\u{2500}";
pub const SELECTED: &'static str = "\u{25B8} ";
pub const CHECKBOX_ON: &'static str = "[\u{2714}]";
pub const CHECKBOX_OFF: &'static str = "[ ]";
pub const TAB_DIVIDER: &'static str = " \u{2502} ";

} // verus!
