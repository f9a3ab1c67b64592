use vstd::prelude::*;
use vstd::string::*;
use crate::text::{chars_of, ends_with, glue};

verus! {

/// Position of the last `/` in `s`, or `-1` when `s` holds none.
pub open spec fn last_separator(s: Seq<char>) -> int
    decreases s.len(),
{
    if s.len() == 0 {
        -1
    } else if s.last() == '/' {
        s.len() - 1
    } else {
        last_separator(s.drop_last())
    }
}

/// `path` without one trailing `/`, if it ends in one.
pub open spec fn trimmed(path: Seq<char>) -> Seq<char> {
    if path.len() > 0 && path.last() == '/' {
        path.drop_last()
    } else {
        path
    }
}

/// The directory that holds `path`. The root and the bare separator are their
/// own parents; a path with a single segment has the root as parent; any other
/// path is cut just behind the last separator that precedes its final segment.
pub open spec fn parent_of(path: Seq<char>) -> Seq<char> {
    if path.len() == 0 || path =~= seq!['/'] {
        path
    } else {
        path.take(last_separator(trimmed(path)) + 1)
    }
}

/// A cursor as the shell keeps it: the root, or a path that closes with a
/// separator.
pub open spec fn canonical(cursor: Seq<char>) -> bool {
    cursor.len() == 0 || cursor.last() == '/'
}

/// The path of the file that `token` names from `cursor`: the two joined,
/// with nothing added.
pub open spec fn file_path(cursor: Seq<char>, token: Seq<char>) -> Seq<char> {
    cursor + token
}

/// The path of the directory that `token` names from `cursor`: the two
/// joined, and a closing separator where they bring none.
pub open spec fn dir_path(cursor: Seq<char>, token: Seq<char>) -> Seq<char> {
    let path = cursor + token;
    if path.len() > 0 && path.last() == '/' {
        path
    } else {
        path + "/"@
    }
}

/// `last_separator` names a separator, and none stands behind it.
pub proof fn lemma_last_separator(s: Seq<char>)
    ensures
        -1 <= last_separator(s) < s.len(),
        last_separator(s) >= 0 ==> s[last_separator(s)] == '/',
        forall|j: int| last_separator(s) < j < s.len() ==> s[j] != '/',
    decreases s.len(),
{
    if s.len() > 0 && s.last() != '/' {
        lemma_last_separator(s.drop_last());
        assert forall|j: int| last_separator(s) < j < s.len() implies s[j] != '/' by {
            if j < s.len() - 1 {
                assert(s.drop_last()[j] == s[j]);
            }
        }
    }
}

/// The parent of a canonical path is canonical, and opens the path.
pub proof fn lemma_parent_is_canonical(path: Seq<char>)
    requires
        canonical(path),
    ensures
        canonical(parent_of(path)),
        parent_of(path).is_prefix_of(path),
{
    if path.len() == 0 || path =~= seq!['/'] {
    } else {
        lemma_last_separator(trimmed(path));
    }
}

/// The parent directory of `path`.
pub fn parent(path: &str) -> (r: &str)
    ensures
        r@ == parent_of(path@),
{
    let chars = chars_of(path);
    let n = chars.len();
    if n == 0 || (n == 1 && chars[0] == '/') {
        assert(n == 1 ==> path@ =~= seq!['/']);
        return path;
    }
    let end: usize = if chars[n - 1] == '/' { n - 1 } else { n };
    assert(chars@.take(end as int) =~= trimmed(path@));
    let mut i: usize = end;
    while i > 0 && chars[i - 1] != '/'
        invariant
            i <= end <= n,
            n == chars@.len(),
            last_separator(chars@.take(end as int)) == last_separator(chars@.take(i as int)),
        decreases i,
    {
        assert(chars@.take(i as int).drop_last() =~= chars@.take(i - 1));
        i -= 1;
    }
    assert(path@.subrange(0, i as int) =~= path@.take(i as int));
    path.substring_char(0, i)
}

/// The path of the file that `token` names from `cursor`.
pub fn resolve_file(cursor: &str, token: &str) -> (path: String)
    ensures
        path@ == file_path(cursor@, token@),
{
    glue(cursor, token)
}

/// The path of the directory that `token` names from `cursor`.
pub fn resolve_dir(cursor: &str, token: &str) -> (path: String)
    ensures
        path@ == dir_path(cursor@, token@),
{
    let mut path = glue(cursor, token);
    if !ends_with(path.as_str(), '/') {
        path.append("/");
    }
    path
}

} // verus!
