//! Windows path values as plain character strings: joining a directory and a
//! file name, and taking the immediate parent of a path. The agent owns its
//! install directory, so the only path structure it ever needs is the last
//! separator.

use vstd::prelude::*;
use vstd::string::StrSliceExecFns;
use vstd::string::StringExecFns;

use crate::strutil::{
    lemma_rfind_char_hit, lemma_rfind_char_none, opt_str_view, rfind_char,
};

verus! {

/// The Windows path separator.
pub const PATH_SEPARATOR: char = '\\';

/// A directory joined with an entry name: the separator goes between them.
pub open spec fn join_path_spec(dir: Seq<char>, name: Seq<char>) -> Seq<char> {
    dir + seq![PATH_SEPARATOR] + name
}

/// The immediate parent of a path: everything before the last separator.
/// A path without a separator has no parent.
pub open spec fn parent_of(path: Seq<char>) -> Option<Seq<char>> {
    match rfind_char(path, PATH_SEPARATOR, path.len() as int) {
        Some(j) => Some(path.subrange(0, j)),
        None => None,
    }
}

/// Join a directory and an entry name with the path separator.
pub fn join_path(dir: &str, name: &str) -> (r: String)
    ensures
        r@ == join_path_spec(dir@, name@),
{
    let mut s = String::from_str(dir);
    s.append("\\");
    proof {
        reveal_strlit("\\");
        assert(s@ =~= dir@ + seq![PATH_SEPARATOR]);
    }
    s.append(name);
    proof {
        assert(s@ =~= join_path_spec(dir@, name@));
    }
    s
}

/// The immediate parent of a path, if the path has a separator.
pub fn parent_dir(path: &str) -> (r: Option<&str>)
    ensures
        opt_str_view(r) == parent_of(path@),
{
    let len = path.unicode_len();
    let mut i = len;
    while i > 0
        invariant
            i <= len,
            len == path@.len(),
            forall|k: int| i <= k < len ==> path@[k] != PATH_SEPARATOR,
        decreases i,
    {
        if path.get_char(i - 1) == PATH_SEPARATOR {
            proof {
                lemma_rfind_char_hit(path@, PATH_SEPARATOR, len as int, i as int - 1);
            }
            return Some(path.substring_char(0, i - 1));
        }
        i = i - 1;
    }
    proof {
        lemma_rfind_char_none(path@, PATH_SEPARATOR, len as int);
    }
    None
}

/// Joining and then taking the parent gives the directory back, as long as
/// the entry name itself holds no separator.
pub proof fn lemma_parent_of_join(dir: Seq<char>, name: Seq<char>)
    requires
        forall|i: int| 0 <= i < name.len() ==> name[i] != PATH_SEPARATOR,
    ensures
        parent_of(join_path_spec(dir, name)) == Some(dir),
{
    let s = join_path_spec(dir, name);
    let j = dir.len() as int;
    assert(s[j] == PATH_SEPARATOR);
    assert forall|k: int| j < k < s.len() implies s[k] != PATH_SEPARATOR by {
        assert(s[k] == name[k - j - 1]);
    }
    lemma_rfind_char_hit(s, PATH_SEPARATOR, s.len() as int, j);
    assert(s.subrange(0, j) =~= dir);
}

} // verus!
