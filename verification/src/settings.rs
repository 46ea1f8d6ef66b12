//! What the tracker remembers between two runs.

use vstd::prelude::*;
use crate::lang::Languages;

verus! {

/// The settings: the language of the display.
#[derive(Debug, Clone, Copy, PartialEq, Eq, Structural)]
pub struct Settings {
    pub language: Languages,
}

impl Default for Settings {
    /// The settings of a first run: the display is in English.
    fn default() -> (settings: Settings)
        ensures
            settings.language == Languages::English,
    {
        Settings { language: Languages::English }
    }
}

} // verus!
