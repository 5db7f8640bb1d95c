//! The settings of the theme and of polling, with their defaults.

use vstd::prelude::*;
use vstd::string::*;

verus! {

/// The colours of a theme, as CSS colours.
#[derive(Debug, Clone)]
pub struct ThemeColors {
    pub primary_start: String,
    pub primary_end: String,
    pub accent: String,
    pub warning: String,
    pub critical: String,
}

/// The theme: a preset by name, and the colours of the custom theme.
#[derive(Debug, Clone)]
pub struct ThemeSettings {
    pub preset: String,
    pub custom: ThemeColors,
}

/// How often to poll, in seconds.
#[derive(Debug, Clone, Copy, PartialEq, Eq, Structural)]
pub struct PollingSettings {
    pub interval: u64,
}

impl ThemeColors {
    /// Whether these are the colours of the default theme.
    pub open spec fn is_default(self) -> bool {
        &&& self.primary_start@ == "#667eea"@
        &&& self.primary_end@ == "#764ba2"@
        &&& self.accent@ == "#22c55e"@
        &&& self.warning@ == "#f97316"@
        &&& self.critical@ == "#ef4444"@
    }
}

impl Default for ThemeColors {
    fn default() -> (c: ThemeColors)
        ensures
            c.is_default(),
    {
        ThemeColors {
            primary_start: String::from_str("#667eea"),
            primary_end: String::from_str("#764ba2"),
            accent: String::from_str("#22c55e"),
            warning: String::from_str("#f97316"),
            critical: String::from_str("#ef4444"),
        }
    }
}

impl Default for ThemeSettings {
    /// The preset `default`, with the default colours as the custom theme.
    fn default() -> (t: ThemeSettings)
        ensures
            t.preset@ == "default"@,
            t.custom.is_default(),
    {
        ThemeSettings { preset: String::from_str("default"), custom: ThemeColors::default() }
    }
}

impl Default for PollingSettings {
    /// Five minutes.
    fn default() -> (p: PollingSettings)
        ensures
            p.interval == 300,
    {
        PollingSettings { interval: 300 }
    }
}

} // verus!
