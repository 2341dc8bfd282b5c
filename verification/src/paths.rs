//! File system paths held as text, and the directories that the platform
//! reports for the current user.

use vstd::prelude::*;

use crate::text::ends_with;

verus! {

/// `base` extended by the relative path `component` (one that does not start
/// with `/`), as `Path::join` builds it for such a component: a `/` is put
/// between the two unless `base` is empty or already ends with one.
pub open spec fn join(base: Seq<char>, component: Seq<char>) -> Seq<char> {
    if base.len() == 0 || base.last() == '/' {
        base + component
    } else {
        base + seq!['/'] + component
    }
}

/// `base` extended by the relative path `component`.
pub fn join_path(base: &str, component: &str) -> (r: String)
    ensures
        r@ == join(base@, component@),
{
    let n = base.unicode_len();
    let mut r = String::from_str(base);
    if n > 0 && base.get_char(n - 1) != '/' {
        r.append("/");
        proof {
            reveal_strlit("/");
        }
    }
    r.append(component);
    r
}

/// A joined path ends with the component joined onto it.
pub proof fn lemma_join_ends_with(base: Seq<char>, component: Seq<char>)
    ensures
        ends_with(join(base, component), component),
{
    let j = join(base, component);
    assert(j.subrange(j.len() - component.len(), j.len() as int) =~= component);
}

/// Joining two components one after the other leaves the path ending with
/// both of them, separated by `/`, provided the first does not end with `/`.
pub proof fn lemma_join_twice_ends_with(base: Seq<char>, first: Seq<char>, second: Seq<char>)
    requires
        first.len() > 0,
        first.last() != '/',
    ensures
        ends_with(join(join(base, first), second), first + seq!['/'] + second),
{
    let a = join(base, first);
    assert(a.last() == first.last());
    let j = join(a, second);
    let suffix = first + seq!['/'] + second;
    assert(j == a + seq!['/'] + second);
    assert(j.subrange(j.len() - suffix.len(), j.len() as int) =~= suffix);
}

/// The user's local data directory, as `dirs::data_local_dir` finds it
/// (`~/Library/Application Support` on macOS), as text.  A path that is not
/// valid UTF-8 is converted lossily.  What comes back depends on the
/// environment of the process, so nothing is promised of it.
#[verifier::external_body]
pub(crate) fn data_local_dir() -> Option<String> {
    match dirs::data_local_dir() {
        Some(p) => Some(p.to_string_lossy().into_owned()),
        None => None,
    }
}

/// The user's home directory, as `dirs::home_dir` finds it, as text.  A path
/// that is not valid UTF-8 is converted lossily.  What comes back depends on
/// the environment of the process, so nothing is promised of it.
#[verifier::external_body]
pub(crate) fn home_dir() -> Option<String> {
    match dirs::home_dir() {
        Some(p) => Some(p.to_string_lossy().into_owned()),
        None => None,
    }
}

} // verus!
