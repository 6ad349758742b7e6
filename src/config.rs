use crate::text::same_text;
use vstd::prelude::*;

verus! {

/// The key names bound to each action.
#[derive(Debug, Clone, PartialEq, Eq)]
pub struct KeyBindings {
    pub move_up: String,
    pub move_down: String,
    pub move_left: String,
    pub move_right: String,
    pub mode_normal: String,
    pub mode_precise: String,
    pub mode_fast: String,
    pub toggle_active: String,
    pub emergency_stop: String,
}

impl Default for KeyBindings {
    /// WASD to move, 1/2/3 for the modes, space to toggle, escape to stop.
    fn default() -> (r: Self)
        ensures
            r.move_up@ == "w"@,
            r.move_down@ == "s"@,
            r.move_left@ == "a"@,
            r.move_right@ == "d"@,
            r.mode_normal@ == "1"@,
            r.mode_precise@ == "2"@,
            r.mode_fast@ == "3"@,
            r.toggle_active@ == "space"@,
            r.emergency_stop@ == "escape"@,
    {
        KeyBindings {
            move_up: "w".to_owned(),
            move_down: "s".to_owned(),
            move_left: "a".to_owned(),
            move_right: "d".to_owned(),
            mode_normal: "1".to_owned(),
            mode_precise: "2".to_owned(),
            mode_fast: "3".to_owned(),
            toggle_active: "space".to_owned(),
            emergency_stop: "escape".to_owned(),
        }
    }
}

/// Process-wide switches.
#[derive(Debug, Clone, PartialEq, Eq)]
pub struct SystemConfig {
    /// Reload the configuration file when it changes.
    pub hot_reload: bool,
    /// One of "error", "warn", "info", "debug", "trace".
    pub log_level: String,
}

impl Default for SystemConfig {
    /// Hot reload on, logging at `info`.
    fn default() -> (r: Self)
        ensures
            r.hot_reload,
            r.log_level@ == "info"@,
    {
        SystemConfig { hot_reload: true, log_level: "info".to_owned() }
    }
}

/// How much the process logs.
#[derive(Debug, Clone, Copy, PartialEq, Eq, Structural)]
pub enum LogLevel {
    Error,
    Warn,
    Info,
    Debug,
    Trace,
}

/// The level a name selects; an unknown name selects `Info`.
pub open spec fn log_level_of(name: Seq<char>) -> LogLevel {
    if name == "error"@ {
        LogLevel::Error
    } else if name == "warn"@ {
        LogLevel::Warn
    } else if name == "debug"@ {
        LogLevel::Debug
    } else if name == "trace"@ {
        LogLevel::Trace
    } else {
        LogLevel::Info
    }
}

impl LogLevel {
    pub fn from_name(name: &str) -> (r: LogLevel)
        ensures
            r == log_level_of(name@),
    {
        if same_text(name, "error") {
            LogLevel::Error
        } else if same_text(name, "warn") {
            LogLevel::Warn
        } else if same_text(name, "debug") {
            LogLevel::Debug
        } else if same_text(name, "trace") {
            LogLevel::Trace
        } else {
            LogLevel::Info
        }
    }
}

} // verus!
