//! Glob patterns, compiled once and matched against paths.
//!
//! Parsing, compiling and matching are done by the `globset` crate. Which
//! patterns compile and which paths a pattern matches are named here rather
//! than restated.
use vstd::prelude::*;

verus! {

#[verifier::external_type_specification]
#[verifier::external_body]
pub struct ExGlobSet(globset::GlobSet);

#[verifier::external_type_specification]
#[verifier::external_body]
pub struct ExGlobError(globset::Error);

/// Whether `globset` accepts the text as a glob pattern and compiles it into
/// a matcher.
pub uninterp spec fn glob_compiles(pattern: Seq<char>) -> bool;

/// Whether the glob pattern, compiled by `globset`, matches the path.
///
/// `globset` reads `/` as the path separator; on platforms other than Unix it
/// first turns their other separators (such as `\`) into `/`.
pub uninterp spec fn glob_matches(pattern: Seq<char>, path: Seq<char>) -> bool;

/// Relies on `globset::Glob::new` and `globset::GlobSet::new`: the pattern is
/// parsed, then compiled into a set of that one glob. Either step reports
/// failure as an error (a pattern that parses but whose matcher cannot be
/// built, such as one nested too deeply, fails in the second), and the
/// outcome depends on the pattern text alone.
#[verifier::external_body]
fn compile_glob(pattern: &str) -> (r: Result<globset::GlobSet, globset::Error>)
    ensures
        r is Ok <==> glob_compiles(pattern@),
{
    let glob = globset::Glob::new(pattern)?;
    globset::GlobSet::new([glob])
}

/// A glob pattern together with its compiled matcher.
///
/// The only way to build one is `GlobPattern::new`, which compiles the
/// matcher from the very text it stores, so the two always agree.
pub struct GlobPattern {
    text: String,
    matcher: globset::GlobSet,
}

impl GlobPattern {
    /// The pattern's text.
    pub closed spec fn text(&self) -> Seq<char> {
        self.text@
    }

    /// Compiles a pattern; fails exactly when it does not parse as a glob or
    /// cannot be compiled into a matcher.
    pub fn new(text: &String) -> (r: Option<GlobPattern>)
        ensures
            r is Some <==> glob_compiles(text@),
            r matches Some(g) ==> g.text() == text@,
    {
        match compile_glob(text.as_str()) {
            Ok(matcher) => Some(GlobPattern { text: text.clone(), matcher }),
            Err(_) => None,
        }
    }

    /// The pattern's text, as given to `new`.
    pub fn as_str(&self) -> (r: &str)
        ensures
            r@ == self.text(),
    {
        self.text.as_str()
    }

    /// Relies on `globset::GlobSet::is_match`, on the set of the one glob
    /// that `new` compiled from `self.text`: it matches exactly the paths
    /// that glob matches.
    #[verifier::external_body]
    pub(crate) fn is_match(&self, path: &str) -> (r: bool)
        ensures
            r == glob_matches(self.text(), path@),
    {
        self.matcher.is_match(path)
    }
}

} // verus!
