//! Raw change events and the categories that user handlers subscribe to.
use vstd::prelude::*;

verus! {

/// The kind of change a notifier reported.
#[derive(Clone, Copy, Debug, PartialEq, Eq, Structural)]
pub enum RawEventKind {
    /// A file or directory was created.
    Created,
    /// A file or directory was removed.
    Removed,
    /// A file or directory was modified.
    Modified,
    /// A file was opened for reading.
    AccessRead,
    /// Any other notification, including access kinds other than a read.
    Other,
}

/// The fixed vocabulary of changes that handlers can subscribe to.
#[derive(Clone, Copy, Debug, PartialEq, Eq, Structural)]
pub enum EventCategory {
    Added,
    Removed,
    Changed,
    Read,
}

/// What a path turned out to be when it was inspected.
///
/// A path whose metadata could not be read (for example because it was
/// already removed again) is `Unavailable`, and is never kept by a filter.
#[derive(Clone, Copy, Debug, PartialEq, Eq, Structural)]
pub enum PathKind {
    File,
    Directory,
    Unavailable,
}

/// One path of an event together with what it was at filter time.
#[derive(Clone, Debug)]
pub struct EventPath {
    pub path: String,
    pub kind: PathKind,
}

/// A notification: one kind of change and the paths it affects, in order.
#[derive(Clone, Debug)]
pub struct RawEvent {
    pub kind: RawEventKind,
    pub paths: Vec<EventPath>,
}

/// The category of each kind of change; `None` for kinds that are dropped.
pub open spec fn spec_category_of(kind: RawEventKind) -> Option<EventCategory> {
    match kind {
        RawEventKind::Created => Some(EventCategory::Added),
        RawEventKind::Removed => Some(EventCategory::Removed),
        RawEventKind::Modified => Some(EventCategory::Changed),
        RawEventKind::AccessRead => Some(EventCategory::Read),
        RawEventKind::Other => None,
    }
}

/// Maps a kind of change to the handler category it is reported under.
pub fn category_of(kind: RawEventKind) -> (r: Option<EventCategory>)
    ensures
        r == spec_category_of(kind),
{
    match kind {
        RawEventKind::Created => Some(EventCategory::Added),
        RawEventKind::Removed => Some(EventCategory::Removed),
        RawEventKind::Modified => Some(EventCategory::Changed),
        RawEventKind::AccessRead => Some(EventCategory::Read),
        RawEventKind::Other => None,
    }
}

/// Every kind of change but `Other` has a category, and no two of them share
/// one.
pub proof fn lemma_category_mapping(a: RawEventKind, b: RawEventKind)
    ensures
        spec_category_of(a).is_none() <==> a == RawEventKind::Other,
        spec_category_of(a).is_some() && spec_category_of(a) == spec_category_of(b) ==> a == b,
{
}

} // verus!
