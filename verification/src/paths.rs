//! What it means for a path to carry a file extension, and where that
//! extension sits. The file name of a path is its final component under the
//! usual path normalization: trailing `/` separators and trailing
//! current-directory (`.`) components count for nothing, so `a.b`, `a.b/`
//! and `a.b/.` all name the file `a.b`. An extension is what follows the
//! last dot of that name, provided the dot sits past the name's first
//! character (so a lone leading dot, as on a hidden file, opens no
//! extension, while a trailing dot yields an empty one). The
//! parent-directory component `..` names no file and has no extension.

use vstd::prelude::*;
use vstd::string::StrSliceExecFns;

verus! {

/// The suffix of `s` that follows the last occurrence of `sep`
/// (all of `s` when `sep` does not occur).
pub open spec fn after_last(s: Seq<char>, sep: char) -> Seq<char>
    decreases s.len(),
{
    if s.len() == 0 {
        s
    } else if s.last() == sep {
        Seq::empty()
    } else {
        after_last(s.drop_last(), sep).push(s.last())
    }
}

/// The current-directory component, which is normalized away at the end of
/// a path.
pub open spec fn cur_dir() -> Seq<char> {
    seq!['.']
}

/// The parent-directory component, which names no file.
pub open spec fn parent_dir() -> Seq<char> {
    seq!['.', '.']
}

/// The file name of a path: its final component, read from the end past
/// any trailing separators and trailing current-directory components.
/// Empty where the path names no final component at all.
pub open spec fn spec_file_name(s: Seq<char>) -> Seq<char>
    decreases s.len(),
{
    if s.len() == 0 {
        s
    } else if s.last() == '/' {
        spec_file_name(s.drop_last())
    } else if after_last(s, '/') == cur_dir() {
        spec_file_name(s.drop_last())
    } else {
        after_last(s, '/')
    }
}

/// A dot that separates a non-empty stem from a suffix: any dot past the
/// name's first character.
pub open spec fn has_separating_dot(name: Seq<char>) -> bool {
    exists|i: int| 1 <= i < name.len() && name[i] == '.'
}

/// Whether a path carries an extension component.
pub open spec fn spec_has_extension(s: Seq<char>) -> bool {
    let name = spec_file_name(s);
    name != parent_dir() && has_separating_dot(name)
}

/// The extension of a path: what follows the last dot of its file name.
pub open spec fn spec_extension(s: Seq<char>) -> Option<Seq<char>> {
    if spec_has_extension(s) {
        Some(after_last(spec_file_name(s), '.'))
    } else {
        None
    }
}

/// `after_last` yields the suffix that starts right after the last `sep`:
/// here `m` marks the first position of that suffix.
proof fn lemma_after_last_suffix(t: Seq<char>, sep: char, m: int)
    requires
        0 <= m <= t.len(),
        forall|j: int| m <= j < t.len() ==> t[j] != sep,
        m == 0 || t[m - 1] == sep,
    ensures
        after_last(t, sep) == t.subrange(m, t.len() as int),
    decreases t.len(),
{
    if t.len() == 0 {
        assert(after_last(t, sep) =~= t.subrange(0, 0));
    } else if m == t.len() {
        assert(t.last() == sep);
        assert(after_last(t, sep) =~= t.subrange(m, t.len() as int));
    } else {
        assert(t.last() != sep);
        lemma_after_last_suffix(t.drop_last(), sep, m);
        assert(after_last(t.drop_last(), sep).push(t.last()) =~= t.subrange(m, t.len() as int));
    }
}

/// Locates the file name of `filename`: the returned pair brackets its
/// final component within the character sequence.
fn file_name_bounds(filename: &str) -> (r: (usize, usize))
    ensures
        r.0 <= r.1 <= filename@.len(),
        spec_file_name(filename@) == filename@.subrange(r.0 as int, r.1 as int),
{
    let n = filename.unicode_len();
    let ghost s = filename@;
    proof {
        assert(s.take(n as int) =~= s);
    }
    let mut end: usize = n;
    loop
        invariant
            end <= n,
            n == s.len(),
            s == filename@,
            spec_file_name(s) == spec_file_name(s.take(end as int)),
        decreases end,
    {
        let ghost end_at_entry = end;
        while end > 0 && filename.get_char(end - 1) == '/'
            invariant
                end <= end_at_entry,
                end <= n,
                n == s.len(),
                s == filename@,
                spec_file_name(s) == spec_file_name(s.take(end as int)),
            decreases end,
        {
            proof {
                assert(s.take(end as int).last() == s[end - 1]);
                assert(s.take(end as int).drop_last() =~= s.take(end as int - 1));
            }
            end = end - 1;
        }
        let mut start: usize = end;
        while start > 0 && filename.get_char(start - 1) != '/'
            invariant
                start <= end,
                end <= n,
                n == s.len(),
                s == filename@,
                forall|j: int| start <= j < end ==> s[j] != '/',
            decreases start,
        {
            start = start - 1;
        }
        proof {
            lemma_after_last_suffix(s.take(end as int), '/', start as int);
            assert(s.take(end as int).subrange(start as int, end as int) =~= s.subrange(
                start as int,
                end as int,
            ));
            assert(cur_dir().len() == 1);
            assert(cur_dir()[0] == '.');
        }
        if end - start == 1 && filename.get_char(start) == '.' {
            // a trailing current-directory component: normalized away
            proof {
                assert(s.take(end as int).last() == s[end - 1]);
                assert(s.subrange(start as int, end as int) =~= cur_dir());
                assert(s.take(end as int).drop_last() =~= s.take(end as int - 1));
            }
            end = end - 1;
        } else {
            proof {
                if end > 0 {
                    assert(s.take(end as int).last() == s[end - 1]);
                    assert(s.subrange(start as int, end as int) != cur_dir());
                } else {
                    assert(spec_file_name(s.take(0)) =~= s.subrange(0, 0));
                }
            }
            return (start, end);
        }
    }
}

/// Locates the extension of `filename`: the returned pair brackets what
/// follows the last separating dot of the file name, or `None` where the
/// path carries no extension.
pub(crate) fn find_extension(filename: &str) -> (r: Option<(usize, usize)>)
    ensures
        match r {
            Some(b) => b.0 <= b.1 <= filename@.len() && spec_extension(filename@) == Some(
                filename@.subrange(b.0 as int, b.1 as int),
            ),
            None => spec_extension(filename@) is None,
        },
{
    let (start, end) = file_name_bounds(filename);
    let ghost s = filename@;
    let ghost name = s.subrange(start as int, end as int);
    proof {
        assert(parent_dir().len() == 2);
        assert(parent_dir()[0] == '.');
        assert(parent_dir()[1] == '.');
    }
    let is_parent = end - start == 2 && filename.get_char(start) == '.' && filename.get_char(
        start + 1,
    ) == '.';
    if is_parent {
        proof {
            assert(name =~= parent_dir());
        }
        return None;
    }
    proof {
        assert(name != parent_dir());
    }
    let mut i: usize = start;
    let mut dot: usize = 0;
    let mut found = false;
    while i < end
        invariant
            start <= i <= end <= s.len(),
            s == filename@,
            found == exists|k: int| start < k < i && s[k] == '.',
            found ==> start < dot < i && s[dot as int] == '.' && (forall|j: int|
                dot < j < i ==> s[j] != '.'),
        decreases end - i,
    {
        if i > start && filename.get_char(i) == '.' {
            dot = i;
            found = true;
        }
        i = i + 1;
    }
    if !found {
        proof {
            assert forall|k: int| 1 <= k < name.len() implies name[k] != '.' by {
                assert(name[k] == s[start + k]);
            }
        }
        return None;
    }
    proof {
        assert(name[dot - start] == '.');
        assert(has_separating_dot(name));
        assert forall|j: int| dot - start + 1 <= j < name.len() implies name[j] != '.' by {
            assert(name[j] == s[start + j]);
        }
        lemma_after_last_suffix(name, '.', dot - start + 1);
        assert(name.subrange(dot - start + 1, name.len() as int) =~= s.subrange(
            dot + 1,
            end as int,
        ));
    }
    Some((dot + 1, end))
}

} // verus!
