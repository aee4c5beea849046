//! Verified core of a filesystem watch session.
//!
//! A watch session turns raw change notifications into calls of user
//! handlers. The decisions it makes (which options apply, which paths of an
//! event survive the type and pattern filters, which handler category an
//! event belongs to, and when the session ends) live here with their
//! contracts. Running the native notifier, inspecting paths on disk and
//! invoking handlers is left to the caller, which feeds each outcome back in.
pub mod error;
pub mod event;
pub mod filter;
pub mod options;
pub mod pattern;
pub mod session;

pub use error::{ConfigError, WatchError};
pub use filter::PathFilter;
pub use event::{category_of, EventCategory, EventPath, PathKind, RawEvent, RawEventKind};
pub use options::{RecordField, WatchOptions};
pub use pattern::GlobPattern;
pub use session::{HandlerSet, SessionAction, SessionInput, SessionState, WatchSession};
