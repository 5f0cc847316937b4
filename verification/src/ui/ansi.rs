//! ANSI escape codes. Always used through `Style::paint`, so that colour is
//! gated in one place.
use vstd::prelude::*;

verus! {

pub const RESET: &'static str = "\x1b[0m";

pub const BOLD: &'static str = "\x1b[1m";

pub const DIM: &'static str = "\x1b[2m";

pub const RED: &'static str = "\x1b[31m";

pub const GREEN: &'static str = "\x1b[32m";

pub const YELLOW: &'static str = "\x1b[33m";

pub const BLUE: &'static str = "\x1b[34m";

pub const CYAN: &'static str = "\x1b[36m";

pub const BRIGHT_RED: &'static str = "\x1b[91m";

} // verus!
