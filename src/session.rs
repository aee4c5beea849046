//! The lifecycle of one watch session, as a state machine.
//!
//! The caller owns the notifier and the handlers. It feeds every outcome
//! (registration, a received event, a notifier failure, the channel closing)
//! into `WatchSession::step`, carries out the action that comes back, and
//! stops once the session has reached a terminal state.
use vstd::prelude::*;
use crate::error::WatchError;
use crate::event::{category_of, spec_category_of, EventCategory, RawEvent};
use crate::filter::{lemma_kept_is_subsequence, PathFilter};
use crate::options::WatchOptions;
use crate::pattern::glob_compiles;

verus! {

/// Which handler categories have a handler registered.
#[derive(Clone, Copy, Debug, PartialEq, Eq, Structural)]
pub struct HandlerSet {
    pub added: bool,
    pub removed: bool,
    pub changed: bool,
    pub read: bool,
}

impl HandlerSet {
    pub open spec fn spec_has(self, c: EventCategory) -> bool {
        match c {
            EventCategory::Added => self.added,
            EventCategory::Removed => self.removed,
            EventCategory::Changed => self.changed,
            EventCategory::Read => self.read,
        }
    }

    /// Whether a handler is registered for the category.
    pub fn has(&self, c: EventCategory) -> (r: bool)
        ensures
            r == self.spec_has(c),
    {
        match c {
            EventCategory::Added => self.added,
            EventCategory::Removed => self.removed,
            EventCategory::Changed => self.changed,
            EventCategory::Read => self.read,
        }
    }
}

/// Where a session is in its life.
#[derive(Clone, Copy, Debug, PartialEq, Eq, Structural)]
pub enum SessionState {
    /// Options accepted; the root path is not registered yet.
    Created,
    /// The notifier runs and events are being received.
    Running,
    /// The event channel closed: the session ended normally.
    Closed,
    /// Registration or the notifier failed: the session ended with an error.
    Errored,
}

/// What happened outside the session since the last step.
#[derive(Clone, Debug)]
pub enum SessionInput {
    /// The root path was registered with the notifier.
    Registered,
    /// The root path could not be registered (missing or inaccessible).
    RegistrationFailed,
    /// An event was received, its paths inspected on disk.
    Event(RawEvent),
    /// Receiving failed inside the notifier.
    NotifierFailed,
    /// The event channel closed because the notifier was torn down.
    ChannelClosed,
}

/// What the caller does next.
#[derive(Clone, Debug)]
pub enum SessionAction {
    /// Wait for the next input.
    Continue,
    /// Schedule the handler of the category with these paths, without
    /// waiting for it, then wait for the next input.
    Dispatch(EventCategory, Vec<String>),
    /// The session ended normally.
    Complete,
    /// The session ended with this error.
    Fail(WatchError),
}

/// The handler call an event leads to, if any: none when no path survives
/// the filters, when its kind has no category, or when no handler is
/// registered for the category.
pub open spec fn dispatch_of(f: PathFilter, handlers: HandlerSet, e: RawEvent) -> Option<
    (EventCategory, Seq<String>),
> {
    let kept = f.kept(e.paths@);
    if kept.len() == 0 {
        None
    } else {
        match spec_category_of(e.kind) {
            Some(c) => if handlers.spec_has(c) {
                Some((c, kept))
            } else {
                None
            },
            None => None,
        }
    }
}

/// The action, as plain values, that a dispatch decision stands for.
pub open spec fn is_action_for(a: SessionAction, d: Option<(EventCategory, Seq<String>)>) -> bool {
    match d {
        None => a is Continue,
        Some((c, paths)) => a matches SessionAction::Dispatch(c2, v) && c2 == c && v@ == paths,
    }
}

pub open spec fn is_terminal(s: SessionState) -> bool {
    s == SessionState::Closed || s == SessionState::Errored
}

/// An event none of whose paths survives the filters leads to no handler
/// call, whatever its kind and whichever handlers are registered.
pub proof fn lemma_filtered_out_event_dispatches_nothing(f: PathFilter, handlers: HandlerSet, e: RawEvent)
    requires
        f.kept(e.paths@).len() == 0,
    ensures
        dispatch_of(f, handlers, e) is None,
{
}

/// An event of a kind without a category never leads to a handler call,
/// whatever its paths and whichever handlers are registered.
pub proof fn lemma_unmapped_kind_dispatches_nothing(f: PathFilter, handlers: HandlerSet, e: RawEvent)
    requires
        spec_category_of(e.kind) is None,
    ensures
        dispatch_of(f, handlers, e) is None,
{
}

/// A handler call always goes to the category of the event's kind, to a
/// registered handler, with exactly the paths that survive the filters; and
/// those paths were all among the event's own.
pub proof fn lemma_dispatch_is_routed(f: PathFilter, handlers: HandlerSet, e: RawEvent)
    ensures
        dispatch_of(f, handlers, e) matches Some((c, paths)) ==> {
            &&& spec_category_of(e.kind) == Some(c)
            &&& handlers.spec_has(c)
            &&& paths == f.kept(e.paths@)
            &&& 0 < paths.len() <= e.paths@.len()
            &&& forall|k: int| 0 <= k < paths.len() ==>
                exists|j: int| 0 <= j < e.paths@.len() && e.paths@[j].path == #[trigger] paths[k]
        },
{
    lemma_kept_is_subsequence(&f, e.paths@);
}

/// One watch session: its filter, its handler set and its state.
pub struct WatchSession {
    filter: PathFilter,
    recursive: bool,
    handlers: HandlerSet,
    state: SessionState,
}

impl WatchSession {
    pub closed spec fn spec_filter(&self) -> PathFilter {
        self.filter
    }

    pub closed spec fn spec_recursive(&self) -> bool {
        self.recursive
    }

    pub closed spec fn spec_handlers(&self) -> HandlerSet {
        self.handlers
    }

    pub closed spec fn spec_state(&self) -> SessionState {
        self.state
    }

    /// Accepts the options of a watch. Fails, before anything is started,
    /// exactly when the pattern does not compile as a glob.
    pub fn new(options: &WatchOptions, handlers: HandlerSet) -> (r: Result<WatchSession, WatchError>)
        ensures
            r is Ok <==> glob_compiles(options.pattern@),
            r is Err ==> r->Err_0 == WatchError::Config(crate::error::ConfigError::InvalidPattern),
            r matches Ok(s) ==> {
                &&& s.spec_state() == SessionState::Created
                &&& s.spec_filter().pattern() == options.pattern@
                &&& s.spec_filter().watch_files() == options.watch_files
                &&& s.spec_filter().watch_directories() == options.watch_directories
                &&& s.spec_recursive() == options.recursive
                &&& s.spec_handlers() == handlers
            },
    {
        match PathFilter::new(options) {
            Ok(filter) => Ok(
                WatchSession {
                    filter,
                    recursive: options.recursive,
                    handlers,
                    state: SessionState::Created,
                },
            ),
            Err(e) => Err(e),
        }
    }

    /// The current state.
    pub fn state(&self) -> (r: SessionState)
        ensures
            r == self.spec_state(),
    {
        self.state
    }

    /// Whether the root is to be registered recursively, so that changes to
    /// nested descendants are reported and not only those to direct children.
    pub fn recursive(&self) -> (r: bool)
        ensures
            r == self.spec_recursive(),
    {
        self.recursive
    }

    /// Whether the session has ended, normally or with an error.
    pub fn is_finished(&self) -> (r: bool)
        ensures
            r == is_terminal(self.spec_state()),
    {
        match self.state {
            SessionState::Closed | SessionState::Errored => true,
            _ => false,
        }
    }

    /// The handler call an event leads to while running.
    pub fn decide(&self, event: &RawEvent) -> (r: SessionAction)
        ensures
            is_action_for(r, dispatch_of(self.spec_filter(), self.spec_handlers(), *event)),
    {
        let paths = self.filter.filter_paths(&event.paths);
        if paths.len() == 0 {
            return SessionAction::Continue;
        }
        match category_of(event.kind) {
            Some(c) => {
                if self.handlers.has(c) {
                    SessionAction::Dispatch(c, paths)
                } else {
                    SessionAction::Continue
                }
            },
            None => SessionAction::Continue,
        }
    }

    /// Advances the session by one input.
    ///
    /// From `Created`, registration leads to `Running` or, failing, to
    /// `Errored` with a registration error. While `Running`, each event leads
    /// to at most one handler call and leaves the session running; a notifier
    /// failure ends it with an error, and the channel closing ends it
    /// normally. Any other input (one that cannot occur in the current
    /// state) changes nothing.
    pub fn step(&mut self, input: SessionInput) -> (r: SessionAction)
        ensures
            final(self).spec_filter() == old(self).spec_filter(),
            final(self).spec_handlers() == old(self).spec_handlers(),
            final(self).spec_recursive() == old(self).spec_recursive(),
            match (old(self).spec_state(), input) {
                (SessionState::Created, SessionInput::Registered) => {
                    &&& final(self).spec_state() == SessionState::Running
                    &&& r is Continue
                },
                (SessionState::Created, SessionInput::RegistrationFailed) => {
                    &&& final(self).spec_state() == SessionState::Errored
                    &&& r == SessionAction::Fail(WatchError::Registration)
                },
                (SessionState::Running, SessionInput::Event(e)) => {
                    &&& final(self).spec_state() == SessionState::Running
                    &&& is_action_for(
                        r,
                        dispatch_of(old(self).spec_filter(), old(self).spec_handlers(), e),
                    )
                },
                (SessionState::Running, SessionInput::NotifierFailed) => {
                    &&& final(self).spec_state() == SessionState::Errored
                    &&& r == SessionAction::Fail(WatchError::Notifier)
                },
                (SessionState::Running, SessionInput::ChannelClosed) => {
                    &&& final(self).spec_state() == SessionState::Closed
                    &&& r is Complete
                },
                _ => {
                    &&& final(self).spec_state() == old(self).spec_state()
                    &&& r is Continue
                },
            },
            // an event with no surviving path calls no handler and raises no error
            old(self).spec_state() == SessionState::Running ==> (input matches SessionInput::Event(e)
                ==> (old(self).spec_filter().kept(e.paths@).len() == 0 ==> {
                &&& r is Continue
                &&& final(self).spec_state() == SessionState::Running
            })),
    {
        match (self.state, input) {
            (SessionState::Created, SessionInput::Registered) => {
                self.state = SessionState::Running;
                SessionAction::Continue
            },
            (SessionState::Created, SessionInput::RegistrationFailed) => {
                self.state = SessionState::Errored;
                SessionAction::Fail(WatchError::Registration)
            },
            (SessionState::Running, SessionInput::Event(e)) => self.decide(&e),
            (SessionState::Running, SessionInput::NotifierFailed) => {
                self.state = SessionState::Errored;
                SessionAction::Fail(WatchError::Notifier)
            },
            (SessionState::Running, SessionInput::ChannelClosed) => {
                self.state = SessionState::Closed;
                SessionAction::Complete
            },
            _ => SessionAction::Continue,
        }
    }
}

} // verus!
