//! The options of a watch, in normalized form.
use vstd::prelude::*;
use crate::error::{ConfigError, WatchError};

verus! {

/// Seconds between two scans when the notifier has to fall back to polling.
pub const DEFAULT_POLL_INTERVAL_SECS: u64 = 30;

/// One field of the record form of the options, as the caller found it.
#[derive(Clone, Debug)]
pub enum RecordField<T> {
    /// The record has no such field.
    Absent,
    /// The field holds a value of the expected type.
    Present(T),
    /// The field holds a value of another type.
    Malformed,
}

impl<T> RecordField<T> {
    pub open spec fn is_malformed(&self) -> bool {
        self is Malformed
    }

    /// The field's value, or `default` where it is absent or malformed.
    pub open spec fn spec_value_or(self, default: T) -> T {
        match self {
            RecordField::Present(v) => v,
            _ => default,
        }
    }

    /// Whether the field holds a value of another type.
    pub fn is_malformed_field(&self) -> (r: bool)
        ensures
            r == self.is_malformed(),
    {
        match self {
            RecordField::Malformed => true,
            _ => false,
        }
    }

    /// The field's value, or `default` where it is absent or malformed.
    pub fn value_or(self, default: T) -> (r: T)
        ensures
            r == self.spec_value_or(default),
    {
        match self {
            RecordField::Present(v) => v,
            _ => default,
        }
    }
}

/// The options of a watch.
#[derive(Clone, Debug)]
pub struct WatchOptions {
    /// A glob pattern that the paths of an event must match.
    pub pattern: String,
    /// Whether changes below the direct children of the root are watched.
    pub recursive: bool,
    /// Whether changes to files are reported.
    pub watch_files: bool,
    /// Whether changes to directories are reported.
    pub watch_directories: bool,
    /// Seconds between scans of the polling fallback.
    pub interval: Option<u64>,
}

impl Default for WatchOptions {
    /// Matches nothing but the empty pattern; watches files and directories,
    /// not recursively, polling every thirty seconds if polling is needed.
    fn default() -> (r: Self)
        ensures
            r.pattern@ == Seq::<char>::empty(),
            !r.recursive,
            r.watch_files,
            r.watch_directories,
            r.interval == Some(DEFAULT_POLL_INTERVAL_SECS),
    {
        WatchOptions {
            pattern: String::new(),
            recursive: false,
            watch_files: true,
            watch_directories: true,
            interval: Some(DEFAULT_POLL_INTERVAL_SECS),
        }
    }
}

impl WatchOptions {
    /// The short form: a bare pattern, every other option at its default.
    pub fn from_pattern(pattern: String) -> (r: WatchOptions)
        ensures
            r.pattern == pattern,
            !r.recursive,
            r.watch_files,
            r.watch_directories,
            r.interval == Some(DEFAULT_POLL_INTERVAL_SECS),
    {
        WatchOptions {
            pattern,
            recursive: false,
            watch_files: true,
            watch_directories: true,
            interval: Some(DEFAULT_POLL_INTERVAL_SECS),
        }
    }

    /// The record form. The pattern is mandatory; each other field that is
    /// absent takes its default. A field given with a value of the wrong
    /// type makes the whole record malformed.
    pub fn from_record(
        pattern: RecordField<String>,
        recursive: RecordField<bool>,
        watch_files: RecordField<bool>,
        watch_directories: RecordField<bool>,
        interval: RecordField<u64>,
    ) -> (r: Result<WatchOptions, WatchError>)
        ensures
            r is Ok <==> (pattern is Present && !recursive.is_malformed()
                && !watch_files.is_malformed() && !watch_directories.is_malformed()
                && !interval.is_malformed()),
            (pattern.is_malformed() || recursive.is_malformed() || watch_files.is_malformed()
                || watch_directories.is_malformed() || interval.is_malformed())
                ==> r == Err::<WatchOptions, WatchError>(
                WatchError::Config(ConfigError::MalformedOptions),
            ),
            (pattern is Absent && !recursive.is_malformed() && !watch_files.is_malformed()
                && !watch_directories.is_malformed() && !interval.is_malformed())
                ==> r == Err::<WatchOptions, WatchError>(
                WatchError::Config(ConfigError::MissingPattern),
            ),
            r matches Ok(o) ==> {
                &&& pattern == RecordField::Present(o.pattern)
                &&& o.recursive == recursive.spec_value_or(false)
                &&& o.watch_files == watch_files.spec_value_or(true)
                &&& o.watch_directories == watch_directories.spec_value_or(true)
                &&& o.interval == Some(interval.spec_value_or(DEFAULT_POLL_INTERVAL_SECS))
            },
    {
        if pattern.is_malformed_field() || recursive.is_malformed_field()
            || watch_files.is_malformed_field() || watch_directories.is_malformed_field()
            || interval.is_malformed_field() {
            return Err(WatchError::Config(ConfigError::MalformedOptions));
        }
        match pattern {
            RecordField::Present(pattern) => Ok(
                WatchOptions {
                    pattern,
                    recursive: recursive.value_or(false),
                    watch_files: watch_files.value_or(true),
                    watch_directories: watch_directories.value_or(true),
                    interval: Some(interval.value_or(DEFAULT_POLL_INTERVAL_SECS)),
                },
            ),
            _ => Err(WatchError::Config(ConfigError::MissingPattern)),
        }
    }

    /// Seconds between scans of the polling fallback.
    pub fn poll_interval_secs(&self) -> (r: u64)
        ensures
            r == self.interval.unwrap_or(DEFAULT_POLL_INTERVAL_SECS),
    {
        match self.interval {
            Some(secs) => secs,
            None => DEFAULT_POLL_INTERVAL_SECS,
        }
    }
}

} // verus!
