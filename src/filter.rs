//! The type and pattern filters applied to the paths of each event.
use vstd::prelude::*;
use crate::error::{ConfigError, WatchError};
use crate::event::{EventPath, PathKind};
use crate::options::WatchOptions;
use crate::pattern::{glob_matches, glob_compiles, GlobPattern};

verus! {

/// Whether a path of the given kind passes the type filter.
pub open spec fn kind_selected(kind: PathKind, watch_files: bool, watch_directories: bool) -> bool {
    match kind {
        PathKind::File => watch_files,
        PathKind::Directory => watch_directories,
        PathKind::Unavailable => false,
    }
}

/// Reduces the paths of an event to those of a selected kind that match the
/// pattern.
pub struct PathFilter {
    pattern: GlobPattern,
    watch_files: bool,
    watch_directories: bool,
}

impl PathFilter {
    pub closed spec fn pattern(&self) -> Seq<char> {
        self.pattern.text()
    }

    pub closed spec fn watch_files(&self) -> bool {
        self.watch_files
    }

    pub closed spec fn watch_directories(&self) -> bool {
        self.watch_directories
    }

    /// Whether one path survives both filters.
    pub open spec fn keeps(&self, p: EventPath) -> bool {
        &&& kind_selected(p.kind, self.watch_files(), self.watch_directories())
        &&& glob_matches(self.pattern(), p.path@)
    }

    /// The paths that survive, in their original order.
    pub open spec fn kept(&self, paths: Seq<EventPath>) -> Seq<String>
        decreases paths.len(),
    {
        if paths.len() == 0 {
            Seq::empty()
        } else {
            let rest = self.kept(paths.drop_last());
            if self.keeps(paths.last()) {
                rest.push(paths.last().path)
            } else {
                rest
            }
        }
    }

    /// Builds the filter of a set of options; fails exactly when the pattern
    /// does not compile as a glob.
    pub fn new(options: &WatchOptions) -> (r: Result<PathFilter, WatchError>)
        ensures
            r is Ok <==> glob_compiles(options.pattern@),
            r is Err ==> r == Err::<PathFilter, WatchError>(
                WatchError::Config(ConfigError::InvalidPattern),
            ),
            r matches Ok(f) ==> {
                &&& f.pattern() == options.pattern@
                &&& f.watch_files() == options.watch_files
                &&& f.watch_directories() == options.watch_directories
            },
    {
        match GlobPattern::new(&options.pattern) {
            Some(pattern) => Ok(
                PathFilter {
                    pattern,
                    watch_files: options.watch_files,
                    watch_directories: options.watch_directories,
                },
            ),
            None => Err(WatchError::Config(ConfigError::InvalidPattern)),
        }
    }

    /// Whether one path survives both filters.
    pub fn keeps_path(&self, p: &EventPath) -> (r: bool)
        ensures
            r == self.keeps(*p),
    {
        let selected = match p.kind {
            PathKind::File => self.watch_files,
            PathKind::Directory => self.watch_directories,
            PathKind::Unavailable => false,
        };
        selected && self.pattern.is_match(p.path.as_str())
    }

    /// The paths of an event that survive both filters, in their original
    /// order.
    pub fn filter_paths(&self, paths: &Vec<EventPath>) -> (r: Vec<String>)
        ensures
            r@ == self.kept(paths@),
    {
        let mut out: Vec<String> = Vec::new();
        let mut i: usize = 0;
        while i < paths.len()
            invariant
                i <= paths@.len(),
                out@ == self.kept(paths@.take(i as int)),
            decreases paths@.len() - i,
        {
            proof {
                assert(paths@.take(i + 1).drop_last() == paths@.take(i as int));
            }
            if self.keeps_path(&paths[i]) {
                out.push(paths[i].path.clone());
            }
            i = i + 1;
        }
        proof {
            assert(paths@.take(paths@.len() as int) == paths@);
        }
        out
    }
}

/// Filtering only removes paths: no more paths are kept than were given,
/// and every kept path is one of the given ones.
pub proof fn lemma_kept_is_subsequence(f: &PathFilter, paths: Seq<EventPath>)
    ensures
        f.kept(paths).len() <= paths.len(),
        forall|k: int| 0 <= k < f.kept(paths).len() ==>
            exists|j: int| 0 <= j < paths.len() && paths[j].path == #[trigger] f.kept(paths)[k],
    decreases paths.len(),
{
    if paths.len() > 0 {
        let init = paths.drop_last();
        lemma_kept_is_subsequence(f, init);
        assert forall|k: int| 0 <= k < f.kept(paths).len() implies
            exists|j: int| 0 <= j < paths.len() && paths[j].path == #[trigger] f.kept(paths)[k] by {
            if k < f.kept(init).len() {
                let j = choose|j: int| 0 <= j < init.len() && init[j].path == f.kept(init)[k];
                assert(paths[j] == init[j]);
            } else {
                assert(paths[paths.len() - 1].path == f.kept(paths)[k]);
            }
        }
    }
}

/// A path that is not of a selected kind, or does not match the pattern,
/// never comes through.
pub proof fn lemma_all_rejected_yields_nothing(f: &PathFilter, paths: Seq<EventPath>)
    requires
        forall|j: int| 0 <= j < paths.len() ==> !f.keeps(#[trigger] paths[j]),
    ensures
        f.kept(paths).len() == 0,
    decreases paths.len(),
{
    if paths.len() > 0 {
        let init = paths.drop_last();
        assert forall|j: int| 0 <= j < init.len() implies !f.keeps(#[trigger] init[j]) by {
            assert(init[j] == paths[j]);
        }
        lemma_all_rejected_yields_nothing(f, init);
    }
}

} // verus!
