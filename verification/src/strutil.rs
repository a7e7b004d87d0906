//! Character-level string utilities: searching a string for a character,
//! from the front or the back, and comparing two strings, each against an
//! exact character-sequence specification.

use vstd::prelude::*;
use vstd::string::StrSliceExecFns;

verus! {

/// The view of an optional string slice.
pub open spec fn opt_str_view(o: Option<&str>) -> Option<Seq<char>> {
    match o {
        Some(s) => Some(s@),
        None => None,
    }
}

/// The view of an optional owned string.
pub open spec fn opt_string_view(o: Option<String>) -> Option<Seq<char>> {
    match o {
        Some(s) => Some(s@),
        None => None,
    }
}

/// Index of the first occurrence of `c` in `s` at or after `from`.
pub open spec fn find_char_from(s: Seq<char>, c: char, from: int) -> Option<int>
    decreases s.len() - from,
{
    if from < 0 || from >= s.len() {
        None
    } else if s[from] == c {
        Some(from)
    } else {
        find_char_from(s, c, from + 1)
    }
}

/// A character at `j`, with none between `from` and `j`, is the one found.
pub proof fn lemma_find_char_hit(s: Seq<char>, c: char, from: int, j: int)
    requires
        0 <= from <= j < s.len(),
        s[j] == c,
        forall|k: int| from <= k < j ==> s[k] != c,
    ensures
        find_char_from(s, c, from) == Some(j),
    decreases j - from,
{
    if from < j {
        lemma_find_char_hit(s, c, from + 1, j);
    }
}

/// With no occurrence at or after `from`, nothing is found.
pub proof fn lemma_find_char_none(s: Seq<char>, c: char, from: int)
    requires
        0 <= from <= s.len(),
        forall|k: int| from <= k < s.len() ==> s[k] != c,
    ensures
        find_char_from(s, c, from) is None,
    decreases s.len() - from,
{
    if from < s.len() {
        lemma_find_char_none(s, c, from + 1);
    }
}

/// Index of the last occurrence of `c` in `s` before `upto`.
pub open spec fn rfind_char(s: Seq<char>, c: char, upto: int) -> Option<int>
    decreases upto,
{
    if upto <= 0 || upto > s.len() {
        None
    } else if s[upto - 1] == c {
        Some(upto - 1)
    } else {
        rfind_char(s, c, upto - 1)
    }
}

/// A character at `j`, with none between `j` and `upto`, is the one found.
pub proof fn lemma_rfind_char_hit(s: Seq<char>, c: char, upto: int, j: int)
    requires
        0 <= j < upto <= s.len(),
        s[j] == c,
        forall|k: int| j < k < upto ==> s[k] != c,
    ensures
        rfind_char(s, c, upto) == Some(j),
    decreases upto,
{
    if j < upto - 1 {
        lemma_rfind_char_hit(s, c, upto - 1, j);
    }
}

/// With no occurrence before `upto`, nothing is found.
pub proof fn lemma_rfind_char_none(s: Seq<char>, c: char, upto: int)
    requires
        upto <= s.len(),
        forall|k: int| 0 <= k < upto ==> s[k] != c,
    ensures
        rfind_char(s, c, upto) is None,
    decreases upto,
{
    if upto > 0 {
        lemma_rfind_char_none(s, c, upto - 1);
    }
}

/// Find the first occurrence of `c` in `s` at or after index `from`
/// (indices count characters, not bytes).
pub fn find_char(s: &str, c: char, from: usize) -> (r: Option<usize>)
    requires
        from <= s@.len(),
    ensures
        match r {
            Some(j) => {
                &&& from <= j < s@.len()
                &&& s@[j as int] == c
                &&& find_char_from(s@, c, from as int) == Some(j as int)
            },
            None => find_char_from(s@, c, from as int) is None,
        },
{
    let len = s.unicode_len();
    let mut i = from;
    while i < len
        invariant
            from <= i <= len,
            len == s@.len(),
            forall|k: int| from <= k < i ==> s@[k] != c,
        decreases len - i,
    {
        if s.get_char(i) == c {
            proof {
                lemma_find_char_hit(s@, c, from as int, i as int);
            }
            return Some(i);
        }
        i = i + 1;
    }
    proof {
        lemma_find_char_none(s@, c, from as int);
    }
    None
}

/// Compare two strings character by character.
pub fn str_eq(a: &str, b: &str) -> (r: bool)
    ensures
        r == (a@ == b@),
{
    let alen = a.unicode_len();
    let blen = b.unicode_len();
    if alen != blen {
        return false;
    }
    let mut i: usize = 0;
    while i < alen
        invariant
            i <= alen,
            alen == a@.len(),
            alen == b@.len(),
            forall|k: int| 0 <= k < i ==> a@[k] == b@[k],
        decreases alen - i,
    {
        if a.get_char(i) != b.get_char(i) {
            return false;
        }
        i = i + 1;
    }
    proof {
        assert(a@ =~= b@);
    }
    true
}

} // verus!
