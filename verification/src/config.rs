//! Configuration values shared by the widget and the configuration file.
use crate::text::push_str;
use vstd::prelude::*;

verus! {

/// Which debug overlays are drawn.
#[derive(Debug, Clone, Copy, PartialEq, Eq, Structural)]
pub struct DebugOverlayConfig {
    /// Draw the pointer position.
    pub debug_pointer: bool,
    /// Draw the touch points.
    pub debug_touch: bool,
}

impl Default for DebugOverlayConfig {
    /// No overlay.
    fn default() -> (c: Self)
        ensures
            c == (DebugOverlayConfig { debug_pointer: false, debug_touch: false }),
    {
        DebugOverlayConfig { debug_pointer: false, debug_touch: false }
    }
}

/// The configuration file could not be read or parsed.
#[derive(Debug, Clone)]
pub enum ConfigError {
    ReadError(String),
    ParseError(String),
}

/// The text of a configuration error.
pub open spec fn config_error_text(e: ConfigError) -> Seq<char> {
    match e {
        ConfigError::ReadError(msg) => "Failed to read config file: "@ + msg@,
        ConfigError::ParseError(msg) => "Failed to parse config file: "@ + msg@,
    }
}

impl ConfigError {
    /// `Failed to read config file: MSG` or `Failed to parse config file: MSG`.
    pub fn to_display_string(&self) -> (s: String)
        ensures
            s@ == config_error_text(*self),
    {
        let mut s = String::new();
        match self {
            ConfigError::ReadError(msg) => {
                push_str(&mut s, "Failed to read config file: ");
                push_str(&mut s, msg.as_str());
            },
            ConfigError::ParseError(msg) => {
                push_str(&mut s, "Failed to parse config file: ");
                push_str(&mut s, msg.as_str());
            },
        }
        s
    }
}

} // verus!
