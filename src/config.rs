//! Display preferences of the presentation process.
use vstd::prelude::*;

verus! {

/// Characters of an entry that are shown before it is cut short, by default.
pub const DEFAULT_MAX_ENTRY_DISPLAY_LENGTH: usize = 100;

/// Whether the window is minimized after an entry is copied, by default.
pub const DEFAULT_MINIMIZE_ON_COPY: bool = true;

/// Whether the window is minimized after the history is cleared, by default.
pub const DEFAULT_MINIMIZE_ON_CLEAR: bool = true;

/// The presentation process's preferences.
#[derive(Clone, Copy, Debug, PartialEq, Eq)]
pub struct ClippyConfig {
    pub dark_mode: bool,
    pub max_entry_display_length: usize,
    pub minimize_on_copy: bool,
    pub minimize_on_clear: bool,
}

impl Default for ClippyConfig {
    /// Dark mode, and the default length and minimizing behaviour.
    fn default() -> (r: ClippyConfig)
        ensures
            r.dark_mode,
            r.max_entry_display_length == DEFAULT_MAX_ENTRY_DISPLAY_LENGTH,
            r.minimize_on_copy == DEFAULT_MINIMIZE_ON_COPY,
            r.minimize_on_clear == DEFAULT_MINIMIZE_ON_CLEAR,
    {
        ClippyConfig {
            dark_mode: true,
            max_entry_display_length: DEFAULT_MAX_ENTRY_DISPLAY_LENGTH,
            minimize_on_copy: DEFAULT_MINIMIZE_ON_COPY,
            minimize_on_clear: DEFAULT_MINIMIZE_ON_CLEAR,
        }
    }
}

} // verus!
