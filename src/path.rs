use vstd::prelude::*;
use crate::text::{chars_of, string_of};

verus! {

/// `s` without the path separators at its end.
pub open spec fn trim_separators(s: Seq<char>) -> Seq<char>
    decreases s.len(),
{
    if s.len() > 0 && s.last() == '/' {
        trim_separators(s.drop_last())
    } else {
        s
    }
}

/// The characters of `s` after its last path separator (all of `s` if it has none).
pub open spec fn last_segment(s: Seq<char>) -> Seq<char>
    decreases s.len(),
{
    if s.len() == 0 || s.last() == '/' {
        Seq::empty()
    } else {
        last_segment(s.drop_last()).push(s.last())
    }
}

/// The final name component of a path: its last segment once trailing
/// separators are dropped. A path whose last segment is empty, `.` or `..`
/// names no entry.
pub open spec fn file_name_of(path: Seq<char>) -> Option<Seq<char>> {
    let n = last_segment(trim_separators(path));
    if n.len() == 0 || n == seq!['.'] || n == seq!['.', '.'] {
        None
    } else {
        Some(n)
    }
}

/// The final name component of `path`, or `None` where the path has none.
pub fn file_name(path: &str) -> (r: Option<String>)
    ensures
        r matches Some(n) ==> file_name_of(path@) == Some(n@),
        r is None ==> file_name_of(path@) is None,
{
    let cs = chars_of(path);
    let mut end: usize = cs.len();
    assert(cs@.take(end as int) =~= cs@);
    while end > 0 && cs[end - 1] == '/'
        invariant
            end <= cs@.len(),
            trim_separators(cs@) == trim_separators(cs@.take(end as int)),
        decreases end,
    {
        assert(cs@.take(end as int).drop_last() =~= cs@.take(end - 1));
        end = end - 1;
    }
    assert(trim_separators(cs@.take(end as int)) == cs@.take(end as int));
    let ghost t = cs@.take(end as int);
    let mut start: usize = end;
    while start > 0 && cs[start - 1] != '/'
        invariant
            start <= end <= cs@.len(),
            t == cs@.take(end as int),
            last_segment(t) == last_segment(cs@.take(start as int)) + cs@.subrange(start as int, end as int),
        decreases start,
    {
        assert(cs@.take(start as int).drop_last() =~= cs@.take(start - 1));
        assert(cs@.subrange(start - 1, end as int) =~= seq![cs@[start - 1]] + cs@.subrange(start as int, end as int));
        assert(last_segment(cs@.take(start as int)) == last_segment(cs@.take(start - 1)).push(cs@[start - 1]));
        assert(last_segment(cs@.take(start - 1)).push(cs@[start - 1]) + cs@.subrange(start as int, end as int)
            =~= last_segment(cs@.take(start - 1)) + cs@.subrange(start - 1, end as int));
        start = start - 1;
    }
    assert(last_segment(cs@.take(start as int)) =~= Seq::<char>::empty());
    assert(last_segment(t) =~= cs@.subrange(start as int, end as int));
    let mut name: Vec<char> = Vec::new();
    let mut i: usize = start;
    while i < end
        invariant
            start <= i <= end <= cs@.len(),
            name@ == cs@.subrange(start as int, i as int),
        decreases end - i,
    {
        name.push(cs[i]);
        assert(name@ =~= cs@.subrange(start as int, i + 1));
        i = i + 1;
    }
    let len: usize = end - start;
    proof {
        if len == 1 && name@[0] == '.' {
            assert(name@ =~= seq!['.']);
        }
        if len == 2 && name@[0] == '.' && name@[1] == '.' {
            assert(name@ =~= seq!['.', '.']);
        }
    }
    if len == 0 || (len == 1 && name[0] == '.') || (len == 2 && name[0] == '.' && name[1] == '.') {
        None
    } else {
        Some(string_of(&name))
    }
}

} // verus!
