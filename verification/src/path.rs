//! Turning a path that may carry the `file://` scheme into a plain path.

use vstd::prelude::*;
use vstd::string::*;

verus! {

/// The URI scheme that a picker may put in front of a path.
pub open spec fn scheme() -> Seq<char> {
    seq!['f', 'i', 'l', 'e', ':', '/', '/']
}

/// Whether `path` begins with the scheme.
pub open spec fn has_scheme(path: Seq<char>) -> bool {
    scheme().is_prefix_of(path)
}

/// The plain path: `path` with every leading occurrence of the scheme removed.
pub open spec fn normalized(path: Seq<char>) -> Seq<char>
    decreases path.len(),
{
    if has_scheme(path) {
        normalized(path.skip(7))
    } else {
        path
    }
}

/// Whether the characters of `path` from position `from` on begin with the scheme.
fn has_scheme_at(path: &str, len: usize, from: usize) -> (found: bool)
    requires
        len == path@.len(),
        from <= len,
    ensures
        found == has_scheme(path@.skip(from as int)),
{
    if len - from < 7 {
        return false;
    }
    let found = path.get_char(from) == 'f' && path.get_char(from + 1) == 'i' && path.get_char(
        from + 2,
    ) == 'l' && path.get_char(from + 3) == 'e' && path.get_char(from + 4) == ':' && path.get_char(
        from + 5,
    ) == '/' && path.get_char(from + 6) == '/';
    proof {
        let rest = path@.skip(from as int);
        if found {
            assert(rest.subrange(0, 7) =~= scheme());
        } else {
            assert(forall|i: int| 0 <= i < 7 ==> rest.subrange(0, 7)[i] == rest[i]);
        }
    }
    found
}

/// Strips the leading `file://` scheme from `path`, as often as it stands there.
pub fn normalize_path(path: &str) -> (clean: String)
    ensures
        clean@ == normalized(path@),
{
    let len = path.unicode_len();
    let mut start: usize = 0;
    proof {
        assert(path@.skip(0) =~= path@);
    }
    while has_scheme_at(path, len, start)
        invariant
            len == path@.len(),
            start <= len,
            normalized(path@.skip(start as int)) == normalized(path@),
        decreases len - start,
    {
        proof {
            assert(path@.skip(start as int).skip(7) =~= path@.skip(start + 7));
        }
        start = start + 7;
    }
    proof {
        assert(path@.subrange(start as int, len as int) =~= path@.skip(start as int));
    }
    path.substring_char(start, len).to_owned()
}

/// A normalized path never begins with the scheme.
pub proof fn lemma_normalized_has_no_scheme(path: Seq<char>)
    ensures
        !has_scheme(normalized(path)),
    decreases path.len(),
{
    if has_scheme(path) {
        lemma_normalized_has_no_scheme(path.skip(7));
    }
}

/// A path that does not begin with the scheme is left as it is.
pub proof fn lemma_normalized_keeps_plain_path(path: Seq<char>)
    requires
        !has_scheme(path),
    ensures
        normalized(path) == path,
{
}

/// A path that begins with the scheme, and whose rest does not begin with it
/// again, loses exactly that one prefix.
pub proof fn lemma_normalized_strips_scheme_once(path: Seq<char>)
    requires
        has_scheme(path),
        !has_scheme(path.skip(7)),
    ensures
        normalized(path) == path.skip(7),
        path == scheme() + normalized(path),
{
    assert(normalized(path.skip(7)) == path.skip(7));
    assert(path =~= scheme() + path.skip(7));
}

/// Normalizing twice gives what normalizing once gives.
pub proof fn lemma_normalized_idempotent(path: Seq<char>)
    ensures
        normalized(normalized(path)) == normalized(path),
{
    lemma_normalized_has_no_scheme(path);
}

} // verus!
