//! Errors of a watch session.
use vstd::prelude::*;

verus! {

/// Why the options of a watch were rejected.
#[derive(Clone, Copy, Debug, PartialEq, Eq, Structural)]
pub enum ConfigError {
    /// The record form of the options has no pattern.
    MissingPattern,
    /// A field of the record form has a value of the wrong type.
    MalformedOptions,
    /// The pattern does not parse as a glob or cannot be compiled.
    InvalidPattern,
}

/// The ways a watch can fail.
#[derive(Clone, Copy, Debug, PartialEq, Eq, Structural)]
pub enum WatchError {
    /// The options were rejected; nothing was started.
    Config(ConfigError),
    /// The root path could not be registered with the notifier.
    Registration,
    /// The notifier failed after the watch had started; the session ends.
    Notifier,
}

} // verus!
