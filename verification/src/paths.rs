//! Path derivation: file names, stems, and joining under a root.
//!
//! Paths are treated as sequences of characters with `/` as the separator,
//! which is how both archive member paths and the storage layout name their
//! components.

use vstd::prelude::*;
use vstd::string::StrSliceExecFns;
use vstd::string::StringExecFns;

verus! {

/// Index of the last occurrence of `c` in `s`, or `-1` when `c` does not occur.
pub open spec fn last_index_of(s: Seq<char>, c: char) -> int
    decreases s.len(),
{
    if s.len() == 0 {
        -1
    } else if s.last() == c {
        s.len() - 1
    } else {
        last_index_of(s.drop_last(), c)
    }
}

pub proof fn lemma_last_index_of_range(s: Seq<char>, c: char)
    ensures
        -1 <= last_index_of(s, c) < s.len(),
    decreases s.len(),
{
    if s.len() > 0 && s.last() != c {
        lemma_last_index_of_range(s.drop_last(), c);
    }
}

pub proof fn lemma_last_index_of_is_last(s: Seq<char>, c: char)
    ensures
        forall|j: int| last_index_of(s, c) < j < s.len() ==> s[j] != c,
    decreases s.len(),
{
    if s.len() > 0 && s.last() != c {
        lemma_last_index_of_range(s.drop_last(), c);
        lemma_last_index_of_is_last(s.drop_last(), c);
        assert forall|j: int| last_index_of(s, c) < j < s.len() implies s[j] != c by {
            if j < s.len() - 1 {
                assert(s.drop_last()[j] == s[j]);
            }
        }
    }
}

/// A path's final component holds no separator.
pub proof fn lemma_file_name_no_sep(p: Seq<char>)
    ensures
        forall|j: int| 0 <= j < file_name_of(p).len() ==> file_name_of(p)[j] != '/',
{
    lemma_last_index_of_range(p, '/');
    lemma_last_index_of_is_last(p, '/');
    let k = last_index_of(p, '/');
    assert forall|j: int| 0 <= j < file_name_of(p).len() implies file_name_of(p)[j] != '/' by {
        assert(file_name_of(p)[j] == p[k + 1 + j]);
    }
}

/// A derivable destination is nonempty and does not end in a separator: the
/// stem it ends with is a nonempty, separator-free component.
pub proof fn lemma_destination_well_formed(p: Seq<char>, root: Seq<char>)
    requires
        has_stem(p),
    ensures
        destination_of(p, root).len() > 0,
        destination_of(p, root).last() != '/',
{
    let name = file_name_of(p);
    let st = stem_of(name);
    lemma_file_name_no_sep(p);
    lemma_last_index_of_range(name, '.');
    assert(st.len() > 0);
    assert(st.last() == name[st.len() - 1]);
    assert(st.last() != '/');
    let dest = destination_of(p, root);
    if root.len() == 0 {
        assert(dest.last() == st.last());
    } else if root.last() == '/' {
        assert(dest.last() == (root + st)[root.len() + st.len() - 1]);
        assert(dest.last() == st.last());
    } else {
        assert(dest.last() == (root + seq!['/'] + st)[root.len() + 1 + st.len() - 1]);
        assert(dest.last() == st.last());
    }
}

proof fn lemma_last_index_of_push(s: Seq<char>, c: char, d: char)
    ensures
        last_index_of(s.push(d), c) == if d == c {
            s.len() as int
        } else {
            last_index_of(s, c)
        },
{
    assert(s.push(d).len() == s.len() + 1);
    assert(s.push(d).last() == d);
    assert(s.push(d).drop_last() =~= s);
}

/// The final component of a path: everything after its last separator.
pub open spec fn file_name_of(p: Seq<char>) -> Seq<char> {
    p.subrange(last_index_of(p, '/') + 1, p.len() as int)
}

/// A file name with its trailing extension removed. A dot in first position
/// marks a hidden file, not an extension.
pub open spec fn stem_of(name: Seq<char>) -> Seq<char> {
    let d = last_index_of(name, '.');
    if d <= 0 {
        name
    } else {
        name.subrange(0, d)
    }
}

/// Whether a path's final component names a regular entry: nonempty and
/// neither of the relative components `.` and `..`.
pub open spec fn is_plain_name(name: Seq<char>) -> bool {
    &&& name.len() > 0
    &&& name != seq!['.']
    &&& name != seq!['.', '.']
}

/// Whether a usable stem can be derived from the path at all: the final
/// component must name a regular entry, and so must the stem itself — a name
/// such as `..epub`, whose stem would be the relative component `.`, yields
/// no destination of its own and is refused.
pub open spec fn has_stem(p: Seq<char>) -> bool {
    &&& is_plain_name(file_name_of(p))
    &&& is_plain_name(stem_of(file_name_of(p)))
}

/// `root` extended by the component `name`, with exactly one separator
/// between them; an empty root leaves `name` as it is.
pub open spec fn joined(root: Seq<char>, name: Seq<char>) -> Seq<char> {
    if root.len() == 0 {
        name
    } else if root.last() == '/' {
        root + name
    } else {
        root + seq!['/'] + name
    }
}

/// The destination an import of `p` stages into under `root`.
pub open spec fn destination_of(p: Seq<char>, root: Seq<char>) -> Seq<char> {
    joined(root, stem_of(file_name_of(p)))
}

/// Position of the last occurrence of `c` in `s`, if any.
pub fn find_last(s: &str, c: char) -> (r: Option<usize>)
    ensures
        r matches Some(i) ==> i < s@.len() && last_index_of(s@, c) == i as int,
        r is None ==> last_index_of(s@, c) == -1,
{
    let n = s.unicode_len();
    let mut i: usize = 0;
    let mut r: Option<usize> = None;
    while i < n
        invariant
            i <= n,
            n == s@.len(),
            r matches Some(j) ==> j < i && last_index_of(s@.take(i as int), c) == j as int,
            r is None ==> last_index_of(s@.take(i as int), c) == -1,
        decreases n - i,
    {
        let ch = s.get_char(i);
        proof {
            lemma_last_index_of_push(s@.take(i as int), c, s@[i as int]);
            assert(s@.take(i + 1 as int) =~= s@.take(i as int).push(s@[i as int]));
        }
        if ch == c {
            r = Some(i);
        }
        i = i + 1;
    }
    proof {
        assert(s@.take(n as int) =~= s@);
    }
    r
}

/// The final component of `path`: everything after its last `/`.
pub fn file_name(path: &str) -> (r: String)
    ensures
        r@ == file_name_of(path@),
{
    let n = path.unicode_len();
    match find_last(path, '/') {
        Some(i) => {
            let tail = path.substring_char(i + 1, n);
            String::from_str(tail)
        },
        None => {
            proof {
                assert(path@.subrange(0, n as int) =~= path@);
            }
            String::from_str(path)
        },
    }
}

/// Whether `s` names a regular entry: nonempty and neither `.` nor `..`.
fn is_plain(s: &str) -> (r: bool)
    ensures
        r == is_plain_name(s@),
{
    let n = s.unicode_len();
    if n == 0 {
        return false;
    }
    if n == 1 && s.get_char(0) == '.' {
        proof {
            assert(s@ =~= seq!['.']);
        }
        return false;
    }
    if n == 2 && s.get_char(0) == '.' && s.get_char(1) == '.' {
        proof {
            assert(s@ =~= seq!['.', '.']);
        }
        return false;
    }
    proof {
        assert(s@ != seq!['.']) by {
            if s@ == seq!['.'] {
                assert(s@.len() == 1);
                assert(s@[0] == '.');
            }
        }
        assert(s@ != seq!['.', '.']) by {
            if s@ == seq!['.', '.'] {
                assert(s@.len() == 2);
                assert(s@[0] == '.');
                assert(s@[1] == '.');
            }
        }
    }
    true
}

/// The stem of `path`'s final component, or `None` when that component, or
/// the stem itself, is empty, `.`, or `..` and so names no regular file.
pub fn file_stem(path: &str) -> (r: Option<String>)
    ensures
        r is Some <==> has_stem(path@),
        r matches Some(s) ==> s@ == stem_of(file_name_of(path@)),
{
    let name = file_name(path);
    if !is_plain(name.as_str()) {
        return None;
    }
    let stem = match find_last(name.as_str(), '.') {
        Some(d) if d > 0 => String::from_str(name.as_str().substring_char(0, d)),
        _ => name,
    };
    if !is_plain(stem.as_str()) {
        return None;
    }
    Some(stem)
}

/// `root` extended by the component `name`, with exactly one separator.
pub fn join_path(root: &str, name: &str) -> (r: String)
    ensures
        r@ == joined(root@, name@),
{
    let n = root.unicode_len();
    if n == 0 {
        return String::from_str(name);
    }
    let mut s = String::from_str(root);
    if root.get_char(n - 1) != '/' {
        s.append("/");
        proof {
            reveal_strlit("/");
            assert(s@ =~= root@ + seq!['/']);
        }
    }
    s.append(name);
    s
}

/// The destination directory for importing `archive_path` under
/// `storage_root`, or `None` when the path carries no usable file name.
pub fn derive_destination(archive_path: &str, storage_root: &str) -> (r: Option<String>)
    ensures
        r is Some <==> has_stem(archive_path@),
        r matches Some(d) ==> d@ == destination_of(archive_path@, storage_root@),
{
    match file_stem(archive_path) {
        Some(stem) => Some(join_path(storage_root, stem.as_str())),
        None => None,
    }
}

} // verus!

