//! The glyph vocabulary, in two registers: trees use `DONE`/`WARN`/`FAIL`
//! items under a `SECTION` header with `BAR`/`BAR_END` structure; tables and
//! one-line summaries use `OK`/`WARN`/`FAIL` and the service-state dots.
use vstd::prelude::*;

verus! {

/// Success in tables, checklists, and one-line summaries.
pub const OK: &'static str = "✔";

/// Failure, everywhere.
pub const FAIL: &'static str = "✗";

/// Attention/degraded, everywhere.
pub const WARN: &'static str = "⚠";

/// Hint / fix continuation line.
pub const HINT: &'static str = "↳";

/// List bullet.
pub const BULLET: &'static str = "•";

/// Section header (active step).
pub const SECTION: &'static str = "◆";

/// Completed/neutral item inside a section tree.
pub const DONE: &'static str = "◇";

/// Section gutter bar.
pub const BAR: &'static str = "│";

/// Section footer corner.
pub const BAR_END: &'static str = "└";

/// Service running (healthy).
pub const RUNNING: &'static str = "●";

/// Service starting / running degraded.
pub const PARTIAL: &'static str = "◐";

/// Service waiting on a dependency.
pub const WAITING: &'static str = "◌";

/// Service stopped.
pub const STOPPED: &'static str = "○";

/// Service restarting (also the restart-count marker).
pub const RESTART: &'static str = "↻";

/// External (observed, not owned) service.
pub const EXTERNAL: &'static str = "◆";

/// Selected option in an interactive radio prompt.
pub const RADIO_ON: &'static str = "●";

/// Unselected option in an interactive radio prompt.
pub const RADIO_OFF: &'static str = "○";

} // verus!
