//! The host's settings, read once per operation, and the strategy they select.

use vstd::prelude::*;

verus! {

/// The flags that steer one operation.
#[derive(Clone, Copy, Debug, PartialEq, Eq)]
pub struct Settings {
    /// Build every tool from source.
    pub all_compile: bool,
    /// Build Python from source.
    pub python_compile: bool,
    /// Experimental features are enabled.
    pub experimental: bool,
    /// Create a missing virtual environment instead of reporting it.
    pub python_venv_auto_create: bool,
    /// Ask the build utility for verbose output.
    pub verbose: bool,
}

/// How a version is installed.
#[derive(Clone, Copy, Debug, PartialEq, Eq, Structural)]
pub enum StrategyChoice {
    /// Fetch a prebuilt archive.
    Precompiled,
    /// Compile with the build utility.
    SourceBuild,
}

/// A prebuilt archive is used only when no flag forces compilation and
/// experimental features are enabled.
pub open spec fn wants_precompiled(s: Settings) -> bool {
    !s.all_compile && !s.python_compile && s.experimental
}

/// The strategy that the settings select.
pub open spec fn strategy_of(s: Settings) -> StrategyChoice {
    if wants_precompiled(s) {
        StrategyChoice::Precompiled
    } else {
        StrategyChoice::SourceBuild
    }
}

impl Settings {
    /// The strategy that these settings select.
    pub fn strategy(&self) -> (choice: StrategyChoice)
        ensures
            choice == strategy_of(*self),
    {
        if !self.all_compile && !self.python_compile && self.experimental {
            StrategyChoice::Precompiled
        } else {
            StrategyChoice::SourceBuild
        }
    }
}

} // verus!
