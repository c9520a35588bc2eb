use vstd::prelude::*;
use crate::path::file_name_of;
use crate::report::{failed_entries, reported_lines};
use crate::search::{verdict, EvalError, Strategy};
use crate::text::{contains, escape_spaces, lower_of};

verus! {

/// The output lines owed for a set of entries: the escaped path of each
/// entry that matches.
pub open spec fn reported_set(query: Seq<char>, st: Strategy, entries: Set<Seq<char>>) -> Set<Seq<char>> {
    entries.filter(|p: Seq<char>| verdict(query, st, p) == Ok::<bool, EvalError>(true)).map(
        |p: Seq<char>| escape_spaces(p),
    )
}

/// Whether `paths[i]` matches and is reported as `line`.
pub open spec fn reported_as(query: Seq<char>, st: Strategy, paths: Seq<Seq<char>>, i: int, line: Seq<char>) -> bool {
    0 <= i < paths.len() && verdict(query, st, paths[i]) == Ok::<bool, EvalError>(true) && line == escape_spaces(paths[i])
}

proof fn lemma_lines_members(query: Seq<char>, st: Strategy, paths: Seq<Seq<char>>)
    ensures
        forall|line: Seq<char>|
            #[trigger] reported_lines(query, st, paths).contains(line) <==> exists|i: int| #[trigger] reported_as(query, st, paths, i, line),
    decreases paths.len(),
{
    if paths.len() > 0 {
        let rest = paths.drop_last();
        lemma_lines_members(query, st, rest);
        let lines = reported_lines(query, st, paths);
        let before = reported_lines(query, st, rest);
        assert forall|line: Seq<char>|
            #[trigger] reported_lines(query, st, paths).contains(line) <==> exists|i: int| #[trigger] reported_as(query, st, paths, i, line) by {
            if lines.contains(line) {
                let j = choose|j: int| 0 <= j < lines.len() && lines[j] == line;
                if j < before.len() {
                    assert(before[j] == line);
                    assert(before.contains(line));
                    let i = choose|i: int| #[trigger] reported_as(query, st, rest, i, line);
                    assert(reported_as(query, st, paths, i, line));
                } else {
                    assert(reported_as(query, st, paths, paths.len() - 1, line));
                }
            }
            if exists|i: int| #[trigger] reported_as(query, st, paths, i, line) {
                let i = choose|i: int| #[trigger] reported_as(query, st, paths, i, line);
                if i < paths.len() - 1 {
                    assert(reported_as(query, st, rest, i, line));
                    assert(before.contains(line));
                    let j = choose|j: int| 0 <= j < before.len() && before[j] == line;
                    assert(lines[j] == line);
                } else {
                    assert(lines[lines.len() - 1] == line);
                }
            }
        }
    }
}

/// The lines reported for a batch of entries, taken as a set, are the escaped
/// paths of exactly the entries that match.
pub proof fn lemma_reported_set(query: Seq<char>, st: Strategy, paths: Seq<Seq<char>>)
    ensures
        reported_lines(query, st, paths).to_set() == reported_set(query, st, paths.to_set()),
{
    lemma_lines_members(query, st, paths);
    let lhs = reported_lines(query, st, paths).to_set();
    let rhs = reported_set(query, st, paths.to_set());
    assert forall|line: Seq<char>| lhs.contains(line) <==> rhs.contains(line) by {
        if lhs.contains(line) {
            assert(reported_lines(query, st, paths).contains(line));
            let i = choose|i: int| #[trigger] reported_as(query, st, paths, i, line);
            assert(paths.contains(paths[i]));
            assert(paths.to_set().contains(paths[i]));
            assert(paths.to_set().filter(|p: Seq<char>| verdict(query, st, p) == Ok::<bool, EvalError>(true)).contains(paths[i]));
        }
        if rhs.contains(line) {
            let p = choose|p: Seq<char>|
                paths.to_set().filter(|p: Seq<char>| verdict(query, st, p) == Ok::<bool, EvalError>(true)).contains(p)
                    && line == escape_spaces(p);
            assert(paths.contains(p));
            let i = choose|i: int| 0 <= i < paths.len() && paths[i] == p;
            assert(reported_as(query, st, paths, i, line));
            assert(reported_lines(query, st, paths).contains(line));
        }
    }
    assert(lhs =~= rhs);
}

/// Whether the lower-cased name of the entry at `path` contains `query`.
pub open spec fn name_contains(path: Seq<char>, query: Seq<char>) -> bool {
    file_name_of(path) is Some && contains(lower_of(file_name_of(path)->0), query)
}

/// Whether the lower-cased name of the entry at `path` equals `query`.
pub open spec fn name_equals(path: Seq<char>, query: Seq<char>) -> bool {
    file_name_of(path) is Some && lower_of(file_name_of(path)->0) == query
}

/// Under the substring strategy, the lines reported for a batch of entries
/// are the escaped paths of exactly those entries whose lower-cased name
/// contains the lower-cased query.
pub proof fn lemma_substring_reports_exactly(query: Seq<char>, paths: Seq<Seq<char>>)
    ensures
        reported_lines(lower_of(query), Strategy::Substring, paths).to_set() == paths.to_set().filter(
            |p: Seq<char>| name_contains(p, lower_of(query)),
        ).map(|p: Seq<char>| escape_spaces(p)),
{
    lemma_reported_set(lower_of(query), Strategy::Substring, paths);
    assert(paths.to_set().filter(|p: Seq<char>| name_contains(p, lower_of(query))) =~= paths.to_set().filter(
        |p: Seq<char>| verdict(lower_of(query), Strategy::Substring, p) == Ok::<bool, EvalError>(true),
    ));
}

/// Under the exact strategy, the lines reported for a batch of entries are
/// the escaped paths of exactly those entries whose lower-cased name equals
/// the lower-cased query.
pub proof fn lemma_exact_reports_exactly(query: Seq<char>, paths: Seq<Seq<char>>)
    ensures
        reported_lines(lower_of(query), Strategy::Exact, paths).to_set() == paths.to_set().filter(
            |p: Seq<char>| name_equals(p, lower_of(query)),
        ).map(|p: Seq<char>| escape_spaces(p)),
{
    lemma_reported_set(lower_of(query), Strategy::Exact, paths);
    assert(paths.to_set().filter(|p: Seq<char>| name_equals(p, lower_of(query))) =~= paths.to_set().filter(
        |p: Seq<char>| verdict(lower_of(query), Strategy::Exact, p) == Ok::<bool, EvalError>(true),
    ));
}

/// Every space of an escaped line directly follows a backslash.
pub proof fn lemma_spaces_escaped(s: Seq<char>)
    ensures
        forall|i: int| 0 <= i < escape_spaces(s).len() && #[trigger] escape_spaces(s)[i] == ' ' ==> i > 0
            && escape_spaces(s)[i - 1] == '\\',
    decreases s.len(),
{
    if s.len() > 0 {
        let r = escape_spaces(s.drop_last());
        let e = escape_spaces(s);
        lemma_spaces_escaped(s.drop_last());
        assert forall|i: int| 0 <= i < e.len() && #[trigger] e[i] == ' ' implies i > 0 && e[i - 1] == '\\' by {
            if i < r.len() {
                assert(e[i] == r[i]);
                assert(r[i - 1] == e[i - 1]);
            } else if s.last() == ' ' {
                assert(e =~= r + seq!['\\', ' ']);
                assert(e[r.len() as int] == '\\');
            } else {
                assert(e =~= r.push(s.last()));
            }
        }
    }
}

/// Distinct paths give distinct lines, so each reported line stands for
/// exactly one entry.
pub proof fn lemma_escape_injective(a: Seq<char>, b: Seq<char>)
    requires
        escape_spaces(a) == escape_spaces(b),
    ensures
        a == b,
    decreases a.len(),
{
    let ea = escape_spaces(a);
    let eb = escape_spaces(b);
    if a.len() == 0 || b.len() == 0 {
        if a.len() > 0 {
            assert(ea.len() > 0);
        }
        if b.len() > 0 {
            assert(eb.len() > 0);
        }
        assert(a =~= b);
    } else {
        let ra = escape_spaces(a.drop_last());
        let rb = escape_spaces(b.drop_last());
        if a.last() == ' ' {
            assert(ea =~= ra + seq!['\\', ' ']);
        } else {
            assert(ea =~= ra.push(a.last()));
        }
        if b.last() == ' ' {
            assert(eb =~= rb + seq!['\\', ' ']);
        } else {
            assert(eb =~= rb.push(b.last()));
        }
        assert(ea.last() == ' ' <==> a.last() == ' ');
        assert(eb.last() == ' ' <==> b.last() == ' ');
        if a.last() == ' ' {
            assert(ra =~= ea.subrange(0, ea.len() - 2));
            assert(rb =~= eb.subrange(0, eb.len() - 2));
        } else {
            assert(ra =~= ea.drop_last());
            assert(rb =~= eb.drop_last());
        }
        lemma_escape_injective(a.drop_last(), b.drop_last());
        assert(a =~= a.drop_last().push(a.last()));
        assert(b =~= b.drop_last().push(b.last()));
    }
}

/// Entries visited in any order, or more than once, give the same set of
/// reported lines: only the set of entries counts.
pub proof fn lemma_reports_order_free(query: Seq<char>, st: Strategy, first: Seq<Seq<char>>, second: Seq<Seq<char>>)
    requires
        first.to_set() == second.to_set(),
    ensures
        reported_lines(query, st, first).to_set() == reported_lines(query, st, second).to_set(),
{
    lemma_reported_set(query, st, first);
    lemma_reported_set(query, st, second);
}

/// Evaluating a batch gives what evaluating its two parts in turn gives:
/// where batches are cut changes neither the lines nor the failures.
pub proof fn lemma_batches_compose(query: Seq<char>, st: Strategy, front: Seq<Seq<char>>, back: Seq<Seq<char>>)
    ensures
        reported_lines(query, st, front + back) == reported_lines(query, st, front) + reported_lines(query, st, back),
        failed_entries(query, st, front + back) == failed_entries(query, st, front) + failed_entries(query, st, back),
    decreases back.len(),
{
    if back.len() == 0 {
        assert(front + back =~= front);
        assert(reported_lines(query, st, front) + reported_lines(query, st, back) =~= reported_lines(query, st, front));
        assert(failed_entries(query, st, front) + failed_entries(query, st, back) =~= failed_entries(query, st, front));
    } else {
        lemma_batches_compose(query, st, front, back.drop_last());
        assert((front + back).drop_last() =~= front + back.drop_last());
        assert((front + back).last() == back.last());
        assert(reported_lines(query, st, front) + reported_lines(query, st, back.drop_last()).push(escape_spaces(back.last()))
            =~= (reported_lines(query, st, front) + reported_lines(query, st, back.drop_last())).push(escape_spaces(back.last())));
        let e = verdict(query, st, back.last());
        if let Err(err) = e {
            assert(failed_entries(query, st, front) + failed_entries(query, st, back.drop_last()).push((back.last(), err))
                =~= (failed_entries(query, st, front) + failed_entries(query, st, back.drop_last())).push((back.last(), err)));
        }
    }
}

/// Under a strategy without a matching algorithm, every entry of a batch
/// fails with that strategy named, and no line is reported.
pub proof fn lemma_unsupported_fails_each(query: Seq<char>, st: Strategy, paths: Seq<Seq<char>>)
    requires
        st == Strategy::Content || st == Strategy::Fuzzy,
    ensures
        reported_lines(query, st, paths).len() == 0,
        failed_entries(query, st, paths) == paths.map_values(|p: Seq<char>| (p, EvalError::Unsupported(st))),
    decreases paths.len(),
{
    if paths.len() > 0 {
        lemma_unsupported_fails_each(query, st, paths.drop_last());
        assert(failed_entries(query, st, paths) =~= paths.map_values(|p: Seq<char>| (p, EvalError::Unsupported(st))));
    } else {
        assert(failed_entries(query, st, paths) =~= paths.map_values(|p: Seq<char>| (p, EvalError::Unsupported(st))));
    }
}

} // verus!
