//! Paths as text: how a name is joined to a directory, what the final
//! segment of a path is, and which directory holds it.

use vstd::prelude::*;
use vstd::string::*;

use crate::text::{chars_of, opt_text};

verus! {

/// `name` appended to the directory `base` as a path: one separator stands
/// between the two unless `base` is empty or already ends in one, and a
/// `name` that starts at the root stands alone.
pub open spec fn joined(base: Seq<char>, name: Seq<char>) -> Seq<char> {
    if name.len() > 0 && name[0] == '/' {
        name
    } else if base.len() == 0 || base.last() == '/' {
        base + name
    } else {
        base + seq!['/'] + name
    }
}

/// Joins a directory and a name into one path.
pub fn join_path(base: &str, name: &str) -> (path: String)
    ensures
        path@ == joined(base@, name@),
{
    let b = chars_of(base);
    let n = chars_of(name);
    if n.len() > 0 && n[0] == '/' {
        return String::from_str(name);
    }
    let mut path = String::from_str(base);
    if b.len() > 0 && b[b.len() - 1] != '/' {
        proof {
            reveal_strlit("/");
            assert("/"@ =~= seq!['/']);
        }
        path.append("/");
    }
    path.append(name);
    path
}

/// `path` without what follows its last component: separators and `.`
/// components at the end are dropped, and a path that is `.` alone is empty.
pub open spec fn without_trailing(path: Seq<char>) -> Seq<char>
    decreases path.len(),
{
    if path.len() > 0 && path.last() == '/' {
        without_trailing(path.drop_last())
    } else if path.len() >= 2 && path.last() == '.' && path[path.len() - 2] == '/' {
        without_trailing(path.drop_last())
    } else if path.len() == 1 && path[0] == '.' {
        Seq::empty()
    } else {
        path
    }
}

/// What follows the last separator of `path`; all of `path` if it has none.
pub open spec fn after_last_separator(path: Seq<char>) -> Seq<char>
    decreases path.len(),
{
    if path.len() == 0 || path.last() == '/' {
        Seq::empty()
    } else {
        after_last_separator(path.drop_last()).push(path.last())
    }
}

/// The final segment of a path: its last component that names something.
/// Empty where the path has no such component or ends in `..`.
pub open spec fn final_segment(path: Seq<char>) -> Seq<char> {
    let last = after_last_separator(without_trailing(path));
    if last == seq!['.', '.'] {
        Seq::empty()
    } else {
        last
    }
}

/// The directory that holds what comes before a path's last component.
/// `before` is empty or ends in a separator; the directory is `before`
/// without what trails it, but for the root and the current directory, which
/// stand as they are.
pub open spec fn directory_of(before: Seq<char>) -> Seq<char> {
    let kept = without_trailing(before);
    if kept.len() > 0 {
        kept
    } else if before.len() == 0 {
        Seq::empty()
    } else {
        seq![before[0]]
    }
}

/// The directory that holds the last component of `path`. A path without
/// components, and one that is the root alone, has none; the components of
/// a path that names the current directory alone are held by the empty
/// path.
pub open spec fn parent_of(path: Seq<char>) -> Option<Seq<char>> {
    let kept = without_trailing(path);
    if kept.len() > 0 {
        let last = after_last_separator(kept);
        Some(directory_of(kept.take(kept.len() - last.len())))
    } else if path.len() > 0 && path[0] == '.' {
        Some(Seq::empty())
    } else {
        None
    }
}

/// Where the first `len` characters of a path end without what trails their
/// last component.
fn trailing_cut(cs: &Vec<char>, len: usize) -> (end: usize)
    requires
        len <= cs.len(),
    ensures
        end <= len,
        without_trailing(cs@.take(len as int)) == cs@.take(end as int),
{
    let mut end: usize = len;
    loop
        invariant_except_break
            without_trailing(cs@.take(len as int)) == without_trailing(cs@.take(end as int)),
        invariant
            end <= len <= cs.len(),
        ensures
            without_trailing(cs@.take(len as int)) == cs@.take(end as int),
        decreases end,
    {
        let ghost head = cs@.take(end as int);
        proof {
            if end > 0 {
                assert(head.drop_last() =~= cs@.take(end - 1));
            }
        }
        if end > 0 && cs[end - 1] == '/' {
            end -= 1;
        } else if end >= 2 && cs[end - 1] == '.' && cs[end - 2] == '/' {
            end -= 1;
        } else if end == 1 && cs[0] == '.' {
            end = 0;
            assert(cs@.take(0) =~= Seq::<char>::empty());
            break;
        } else {
            break;
        }
    }
    end
}

/// Where the last component of the first `end` characters of a path begins.
fn component_start(cs: &Vec<char>, end: usize) -> (start: usize)
    requires
        end <= cs.len(),
    ensures
        start <= end,
        after_last_separator(cs@.take(end as int)) == cs@.subrange(start as int, end as int),
{
    let mut start: usize = end;
    while start > 0 && cs[start - 1] != '/'
        invariant
            start <= end <= cs.len(),
            forall|i: int| start <= i < end ==> cs@[i] != '/',
        decreases start,
    {
        start -= 1;
    }
    proof {
        let kept = cs@.take(end as int);
        lemma_segment_bounds(kept, start as int);
        assert(kept.subrange(start as int, end as int) =~= cs@.subrange(start as int, end as int));
    }
    start
}

/// The final segment of `path`, as a string of its own.
pub fn last_segment(path: &str) -> (name: String)
    ensures
        name@ == final_segment(path@),
{
    let cs = chars_of(path);
    assert(cs@.take(cs.len() as int) =~= cs@);
    let end = trailing_cut(&cs, cs.len());
    let start = component_start(&cs, end);
    if end - start == 2 && cs[start] == '.' && cs[start + 1] == '.' {
        assert(cs@.subrange(start as int, end as int) =~= seq!['.', '.']);
        return String::new();
    }
    proof {
        let part = cs@.subrange(start as int, end as int);
        if part == seq!['.', '.'] {
            assert(part.len() == 2);
            assert(part[0] == '.' && part[1] == '.');
        }
    }
    String::from_str(path.substring_char(start, end))
}

/// The directory that holds the last component of `path`, if it has one.
pub fn parent_dir(path: &str) -> (parent: Option<String>)
    ensures
        opt_text(parent) == parent_of(path@),
{
    let cs = chars_of(path);
    assert(cs@.take(cs.len() as int) =~= cs@);
    let end = trailing_cut(&cs, cs.len());
    if end == 0 {
        assert(cs@.take(0) =~= Seq::<char>::empty());
        if cs.len() > 0 && cs[0] == '.' {
            return Some(String::new());
        }
        return None;
    }
    let start = component_start(&cs, end);
    let ghost kept = cs@.take(end as int);
    let ghost before = kept.take(kept.len() - after_last_separator(kept).len());
    assert(before =~= cs@.take(start as int));
    let cut = trailing_cut(&cs, start);
    if cut > 0 {
        assert(cs@.take(cut as int) =~= cs@.subrange(0, cut as int));
        Some(String::from_str(path.substring_char(0, cut)))
    } else if start == 0 {
        assert(cs@.take(0) =~= Seq::<char>::empty());
        Some(String::new())
    } else {
        assert(cs@.take(0) =~= Seq::<char>::empty());
        assert(cs@.subrange(0, 1) =~= seq![before[0]]);
        Some(String::from_str(path.substring_char(0, 1)))
    }
}

/// Where no separator stands from `start` on and one stands just before it
/// (or `start` is the beginning), what follows the last separator begins at
/// `start`.
proof fn lemma_segment_bounds(path: Seq<char>, start: int)
    requires
        0 <= start <= path.len(),
        forall|i: int| start <= i < path.len() ==> path[i] != '/',
        start > 0 ==> path[start - 1] == '/',
    ensures
        after_last_separator(path) == path.subrange(start, path.len() as int),
    decreases path.len(),
{
    if path.len() == 0 || path.last() == '/' {
        assert(path.subrange(start, path.len() as int) =~= Seq::<char>::empty());
    } else {
        lemma_segment_bounds(path.drop_last(), start);
        assert(path.subrange(start, path.len() as int) =~= path.drop_last().subrange(
            start,
            path.len() - 1,
        ).push(path.last()));
    }
}

} // verus!
