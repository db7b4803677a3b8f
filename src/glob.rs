//! Glob patterns, through the globset crate.
use vstd::prelude::*;
use crate::path::chars_of;

verus! {

/// Whether globset accepts `pattern` as a glob with its default options and
/// can build a glob set holding it alone.
pub uninterp spec fn glob_parses(pattern: Seq<char>) -> bool;

/// Whether the glob `pattern`, with globset's default options (`*` also
/// crosses `/`), matches the whole text `path`.
pub uninterp spec fn glob_matches(pattern: Seq<char>, path: Seq<char>) -> bool;

/// The most `{` that a glob pattern may hold. globset's parser recurses once
/// for each level of `{...}` nesting with no limit of its own; bounding the
/// count bounds the depth.
pub const MAX_GLOB_BRACES: usize = 250;

/// The number of `{` in `s`.
pub open spec fn brace_count(s: Seq<char>) -> nat
    decreases s.len(),
{
    if s.len() == 0 {
        0
    } else {
        brace_count(s.drop_last()) + if s.last() == '{' {
            1nat
        } else {
            0nat
        }
    }
}

/// `s` holds at most `MAX_GLOB_BRACES` braces `{`.
pub open spec fn within_brace_limit(s: Seq<char>) -> bool {
    brace_count(s) <= MAX_GLOB_BRACES
}

/// A pattern that the library takes as a glob: within the brace limit, and
/// accepted by globset.
pub open spec fn usable_glob(pattern: Seq<char>) -> bool {
    within_brace_limit(pattern) && glob_parses(pattern)
}

fn braces_within_limit(pattern: &str) -> (r: bool)
    ensures
        r == within_brace_limit(pattern@),
{
    let text = chars_of(pattern);
    let mut count: usize = 0;
    let mut i: usize = 0;
    while i < text.len()
        invariant
            text@ == pattern@,
            i <= text@.len(),
            count <= i,
            count == brace_count(text@.subrange(0, i as int)),
        decreases text.len() - i,
    {
        assert(text@.subrange(0, i + 1).drop_last() =~= text@.subrange(0, i as int));
        if text[i] == '{' {
            count += 1;
        }
        i += 1;
    }
    assert(text@.subrange(0, i as int) =~= pattern@);
    count <= MAX_GLOB_BRACES
}

/// Whether `pattern` is a usable glob.
pub fn is_usable_glob(pattern: &str) -> (r: bool)
    ensures
        r == usable_glob(pattern@),
{
    if !braces_within_limit(pattern) {
        false
    } else {
        check_glob(pattern)
    }
}

/// Relies on `globset::Glob::new` and `GlobSetBuilder::build`: the first
/// returns `Ok` when the pattern parses, the second when the regex it gives
/// compiles within globset's limits. Both depend on the pattern alone.
#[verifier::external_body]
fn check_glob(pattern: &str) -> (r: bool)
    requires
        within_brace_limit(pattern@),
    ensures
        r == glob_parses(pattern@),
{
    match globset::Glob::new(pattern) {
        Ok(g) => globset::GlobSetBuilder::new().add(g).build().is_ok(),
        Err(_) => false,
    }
}

/// Relies on `globset::Glob::new`, `GlobSetBuilder::build` and
/// `GlobSet::is_match`: for a usable pattern, which parses and builds, whether it
/// matches the path text, which depends on the two texts alone.
#[verifier::external_body]
pub(crate) fn glob_is_match(pattern: &str, path: &str) -> (r: bool)
    requires
        usable_glob(pattern@),
    ensures
        r == glob_matches(pattern@, path@),
{
    match globset::Glob::new(pattern) {
        Ok(g) => match globset::GlobSetBuilder::new().add(g).build() {
            Ok(set) => set.is_match(path),
            Err(_) => false,
        },
        Err(_) => false,
    }
}

} // verus!
