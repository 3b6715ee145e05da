//! The policy: one enforcement mode for each operation.

use crate::operation::Operation;
use crate::token::{eq_ignore_case, matches_token};
use vstd::prelude::*;

verus! {

/// How strictly a missing `WHERE` predicate is treated.
#[derive(Debug, Clone, Copy, PartialEq, Eq, Structural)]
pub enum StrictMode {
    /// Statements are not inspected.
    Off,
    /// A statement without `WHERE` is reported and runs.
    Warn,
    /// A statement without `WHERE` is refused.
    On,
}

/// The lower-case token of a mode.
pub open spec fn mode_token(mode: StrictMode) -> Seq<char> {
    match mode {
        StrictMode::Off => "off"@,
        StrictMode::Warn => "warn"@,
        StrictMode::On => "on"@,
    }
}

/// The mode that a token names, up to the case of its letters: `off`, `warn`
/// or `on`. Any other token names none.
pub open spec fn mode_named(token: Seq<char>) -> Option<StrictMode> {
    if matches_token(token, "off"@) {
        Some(StrictMode::Off)
    } else if matches_token(token, "warn"@) {
        Some(StrictMode::Warn)
    } else if matches_token(token, "on"@) {
        Some(StrictMode::On)
    } else {
        None
    }
}

/// The lower-case token of a mode: `off`, `warn` or `on`.
pub fn mode_to_str(mode: StrictMode) -> (token: &'static str)
    ensures
        token@ == mode_token(mode),
{
    match mode {
        StrictMode::Off => "off",
        StrictMode::Warn => "warn",
        StrictMode::On => "on",
    }
}

/// Reads a mode from its token, ignoring case. A token other than `off`,
/// `warn` and `on` is rejected.
pub fn parse_mode(token: &str) -> (mode: Option<StrictMode>)
    ensures
        mode == mode_named(token@),
{
    if eq_ignore_case(token, "off") {
        Some(StrictMode::Off)
    } else if eq_ignore_case(token, "warn") {
        Some(StrictMode::Warn)
    } else if eq_ignore_case(token, "on") {
        Some(StrictMode::On)
    } else {
        None
    }
}

/// The two modes in force, one for each operation.
#[derive(Debug, Clone, Copy, PartialEq, Eq, Structural)]
pub struct PolicySettings {
    pub update_mode: StrictMode,
    pub delete_mode: StrictMode,
}

impl PolicySettings {
    /// The mode in force for an operation.
    pub open spec fn mode_of(self, operation: Operation) -> StrictMode {
        match operation {
            Operation::Update => self.update_mode,
            Operation::Delete => self.delete_mode,
        }
    }

    /// The mode in force for an operation.
    pub fn mode_for(&self, operation: Operation) -> (mode: StrictMode)
        ensures
            mode == self.mode_of(operation),
    {
        match operation {
            Operation::Update => self.update_mode,
            Operation::Delete => self.delete_mode,
        }
    }

    /// Sets the mode of one operation from a token. A token that names no
    /// mode is rejected and leaves the settings as they were.
    pub fn set_from_token(&mut self, operation: Operation, token: &str) -> (accepted: bool)
        ensures
            accepted == mode_named(token@) is Some,
            match mode_named(token@) {
                Some(mode) => final(self).mode_of(operation) == mode && forall|other: Operation|
                    other != operation ==> final(self).mode_of(other) == old(self).mode_of(other),
                None => *final(self) == *old(self),
            },
    {
        match parse_mode(token) {
            Some(mode) => {
                match operation {
                    Operation::Update => {
                        self.update_mode = mode;
                    },
                    Operation::Delete => {
                        self.delete_mode = mode;
                    },
                }
                true
            },
            None => false,
        }
    }
}

/// The settings at start-up: both modes off.
pub fn init_gucs() -> (settings: PolicySettings)
    ensures
        settings.update_mode == StrictMode::Off,
        settings.delete_mode == StrictMode::Off,
{
    PolicySettings { update_mode: StrictMode::Off, delete_mode: StrictMode::Off }
}

/// The modes in force, first for `UPDATE`, then for `DELETE`.
pub fn current_modes(settings: &PolicySettings) -> (modes: (StrictMode, StrictMode))
    ensures
        modes.0 == settings.update_mode,
        modes.1 == settings.delete_mode,
{
    (settings.update_mode, settings.delete_mode)
}

} // verus!
