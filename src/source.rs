//! Where the source tree comes from.
use vstd::prelude::*;
use crate::path::chars_of;

verus! {

/// The text that a repository address on GitHub starts with.
pub open spec fn github_prefix() -> Seq<char> {
    "https://github.com/"@
}

/// Whether `s` is a GitHub repository address, to be cloned rather than read
/// as a local directory: it starts with `https://github.com/`.
pub fn is_github_url(s: &str) -> (r: bool)
    ensures
        r == (github_prefix().len() <= s@.len() && s@.subrange(0, github_prefix().len() as int)
            == github_prefix()),
{
    let text = chars_of(s);
    let prefix = chars_of("https://github.com/");
    if prefix.len() > text.len() {
        return false;
    }
    let mut i: usize = 0;
    while i < prefix.len()
        invariant
            prefix@ == github_prefix(),
            text@ == s@,
            prefix@.len() <= text@.len(),
            i <= prefix@.len(),
            forall|k: int| 0 <= k < i ==> text@[k] == prefix@[k],
        decreases prefix.len() - i,
    {
        if text[i] != prefix[i] {
            assert(s@.subrange(0, github_prefix().len() as int)[i as int] != github_prefix()[i as int]);
            return false;
        }
        i += 1;
    }
    assert(s@.subrange(0, github_prefix().len() as int) =~= github_prefix());
    true
}

} // verus!
