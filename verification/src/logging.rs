//! How much the shell logs: the levels, their names, and the level that a
//! build environment calls for.

use vstd::prelude::*;
use vstd::string::*;
use crate::primitives::lowercase;
use crate::primitives::str_to_lowercase;

verus! {

/// A logging verbosity, from silent to most talkative.
#[derive(Debug, Clone, Copy, PartialEq, Eq)]
pub enum LogLevel {
    /// Nothing is logged.
    Off,
    /// Errors only.
    Error,
    /// Warnings and errors.
    Warn,
    /// Informational messages, warnings and errors.
    Info,
    /// Everything but traces.
    Debug,
}

/// The level with this lowercase name, if there is one.
pub open spec fn level_named(name: Seq<char>) -> Option<LogLevel> {
    if name == "off"@ {
        Some(LogLevel::Off)
    } else if name == "error"@ {
        Some(LogLevel::Error)
    } else if name == "warn"@ {
        Some(LogLevel::Warn)
    } else if name == "info"@ {
        Some(LogLevel::Info)
    } else if name == "debug"@ {
        Some(LogLevel::Debug)
    } else {
        None
    }
}

/// The level that a setting asks for: the one it names, in any letter case;
/// `Info` where there is no setting or it names no level.
pub open spec fn level_of(setting: Option<Seq<char>>) -> LogLevel {
    match setting {
        None => LogLevel::Info,
        Some(text) => match level_named(lowercase(text)) {
            Some(level) => level,
            None => LogLevel::Info,
        },
    }
}

/// The level that a build environment logs at when nothing else is set.
pub open spec fn level_for(environment: Seq<char>) -> LogLevel {
    if environment == "production"@ {
        LogLevel::Error
    } else if environment == "preview"@ {
        LogLevel::Info
    } else {
        LogLevel::Debug
    }
}

fn same_text(text: &str, name: &str) -> (same: bool)
    ensures
        same == (text@ == name@),
{
    String::from_str(text) == String::from_str(name)
}

/// Looks a level up by its lowercase name.
pub fn named_level(name: &str) -> (level: Option<LogLevel>)
    ensures
        level == level_named(name@),
{
    if same_text(name, "off") {
        Some(LogLevel::Off)
    } else if same_text(name, "error") {
        Some(LogLevel::Error)
    } else if same_text(name, "warn") {
        Some(LogLevel::Warn)
    } else if same_text(name, "info") {
        Some(LogLevel::Info)
    } else if same_text(name, "debug") {
        Some(LogLevel::Debug)
    } else {
        None
    }
}

/// Whether a setting names a level, in any letter case.
pub fn is_log_level(setting: &str) -> (known: bool)
    ensures
        known == level_named(lowercase(setting@)) is Some,
{
    let lowered = str_to_lowercase(setting);
    named_level(lowered.as_str()).is_some()
}

/// Reads a level setting. A missing setting means `Info`, and so does one
/// that names no level.
pub fn parse_log_level(level: Option<&str>) -> (parsed: LogLevel)
    ensures
        parsed == level_of(
            match level {
                Some(text) => Some(text@),
                None => None,
            },
        ),
{
    match level {
        None => LogLevel::Info,
        Some(text) => {
            let lowered = str_to_lowercase(text);
            match named_level(lowered.as_str()) {
                Some(level) => level,
                None => LogLevel::Info,
            }
        },
    }
}

/// The level for a build environment: errors only in production,
/// informational in preview, debugging anywhere else.
pub fn level_for_environment(environment: &str) -> (level: LogLevel)
    ensures
        level == level_for(environment@),
{
    if same_text(environment, "production") {
        LogLevel::Error
    } else if same_text(environment, "preview") {
        LogLevel::Info
    } else {
        LogLevel::Debug
    }
}

} // verus!
