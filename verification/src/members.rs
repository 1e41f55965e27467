//! Safety of archive member paths: a member may only land inside the
//! destination directory, so absolute paths and parent-directory segments
//! are rejected. Member paths use `/` as their separator, but `\` counts as
//! one too, since a Windows filesystem would treat it so.

use vstd::prelude::*;
use vstd::string::StrSliceExecFns;
use crate::paths::joined;

verus! {

/// A separator inside a member path: members use `/`, but a `\\` is a
/// separator to a Windows filesystem and is treated as one here too.
pub open spec fn is_member_sep(c: char) -> bool {
    c == '/' || c == '\\'
}

/// Whether position `i` of `s` starts a `..` path segment: two dots bounded
/// by the string's ends or by separators.
pub open spec fn dotdot_at(s: Seq<char>, i: int) -> bool {
    &&& 0 <= i
    &&& i + 2 <= s.len()
    &&& s[i] == '.'
    &&& s[i + 1] == '.'
    &&& (i == 0 || is_member_sep(s[i - 1]))
    &&& (i + 2 == s.len() || is_member_sep(s[i + 2]))
}

/// Whether `s` holds a parent-directory segment anywhere.
pub open spec fn has_parent_segment(s: Seq<char>) -> bool {
    exists|i: int| dotdot_at(s, i)
}

/// A member path is safe when it is nonempty, relative, and free of
/// parent-directory segments: extracting it can only create entries below
/// the destination.
pub open spec fn member_is_safe(s: Seq<char>) -> bool {
    &&& s.len() > 0
    &&& !is_member_sep(s[0])
    &&& !has_parent_segment(s)
}

/// Checks a member path before it is staged for extraction.
pub fn is_safe_member_path(name: &str) -> (r: bool)
    ensures
        r == member_is_safe(name@),
{
    let n = name.unicode_len();
    if n == 0 {
        return false;
    }
    let first = name.get_char(0);
    if first == '/' || first == '\\' {
        return false;
    }
    let mut i: usize = 0;
    while i < n
        invariant
            i <= n,
            n == name@.len(),
            forall|j: int| 0 <= j < i ==> !dotdot_at(name@, j),
        decreases n - i,
    {
        if name.get_char(i) == '.' && i + 1 < n && name.get_char(i + 1) == '.' {
            let left_ok = i == 0 || {
                let c = name.get_char(i - 1);
                c == '/' || c == '\\'
            };
            let right_ok = i + 2 == n || {
                let c = name.get_char(i + 2);
                c == '/' || c == '\\'
            };
            if left_ok && right_ok {
                proof {
                    assert(dotdot_at(name@, i as int));
                }
                return false;
            }
        }
        i = i + 1;
    }
    proof {
        assert forall|j: int| !dotdot_at(name@, j) by {
            if 0 <= j && j + 2 <= name@.len() {
                assert(j < n);
            }
        }
    }
    true
}

/// Staying inside the destination: a safe member path, joined under a
/// destination that does not end in a separator, extends the destination by
/// exactly one separator; the destination is a prefix of the result, and the
/// member part carries no parent-directory segment to climb back out with.
pub proof fn lemma_safe_member_stays_inside(dest: Seq<char>, name: Seq<char>)
    requires
        member_is_safe(name),
        dest.len() > 0,
        dest.last() != '/',
    ensures
        joined(dest, name) == dest + seq!['/'] + name,
        joined(dest, name).subrange(0, dest.len() as int) == dest,
        joined(dest, name)[dest.len() as int] == '/',
        !has_parent_segment(name),
{
    assert((dest + seq!['/'] + name).subrange(0, dest.len() as int) =~= dest);
}

} // verus!
