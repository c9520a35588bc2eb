use vstd::prelude::*;
use crate::search::{verdict, EvalError, SearchRequest, Strategy};
use crate::text::escape_spaces;

verus! {

/// One entry that could not be evaluated, and why.
pub struct Failure {
    pub path: String,
    pub error: EvalError,
}

/// What evaluating one batch of entries gives: the output lines of the
/// matches and the failures, each in the order of the entries.
pub struct ChunkReport {
    pub lines: Vec<String>,
    pub failures: Vec<Failure>,
}

/// The output lines for `paths`, in order: the escaped path of each match.
pub open spec fn reported_lines(query: Seq<char>, st: Strategy, paths: Seq<Seq<char>>) -> Seq<Seq<char>>
    decreases paths.len(),
{
    if paths.len() == 0 {
        Seq::empty()
    } else {
        let rest = reported_lines(query, st, paths.drop_last());
        if verdict(query, st, paths.last()) == Ok::<bool, EvalError>(true) {
            rest.push(escape_spaces(paths.last()))
        } else {
            rest
        }
    }
}

/// The entries of `paths` that could not be evaluated, in order, with the reason.
pub open spec fn failed_entries(query: Seq<char>, st: Strategy, paths: Seq<Seq<char>>) -> Seq<(Seq<char>, EvalError)>
    decreases paths.len(),
{
    if paths.len() == 0 {
        Seq::empty()
    } else {
        let rest = failed_entries(query, st, paths.drop_last());
        match verdict(query, st, paths.last()) {
            Err(e) => rest.push((paths.last(), e)),
            Ok(_) => rest,
        }
    }
}

/// The characters of each string.
pub open spec fn views(v: Seq<String>) -> Seq<Seq<char>> {
    v.map_values(|s: String| s@)
}

/// Each failure as a path and a reason.
pub open spec fn failure_views(v: Seq<Failure>) -> Seq<(Seq<char>, EvalError)> {
    v.map_values(|f: Failure| (f.path@, f.error))
}

/// Evaluates each of `paths` against `req`; one entry's failure leaves the
/// others untouched.
pub fn report_chunk(req: &SearchRequest, paths: &Vec<String>) -> (r: ChunkReport)
    ensures
        views(r.lines@) == reported_lines(req@.query, req@.strategy, views(paths@)),
        failure_views(r.failures@) == failed_entries(req@.query, req@.strategy, views(paths@)),
{
    let mut lines: Vec<String> = Vec::new();
    let mut failures: Vec<Failure> = Vec::new();
    let mut i: usize = 0;
    while i < paths.len()
        invariant
            i <= paths@.len(),
            views(lines@) == reported_lines(req@.query, req@.strategy, views(paths@).take(i as int)),
            failure_views(failures@) == failed_entries(req@.query, req@.strategy, views(paths@).take(i as int)),
        decreases paths@.len() - i,
    {
        let ghost before = views(paths@).take(i as int);
        assert(views(paths@).take(i + 1).drop_last() =~= before);
        assert(views(paths@).take(i + 1).last() == paths@[i as int]@);
        match req.report(paths[i].as_str()) {
            Ok(Some(line)) => {
                lines.push(line);
                assert(views(lines@) =~= reported_lines(req@.query, req@.strategy, before).push(escape_spaces(paths@[i as int]@)));
            },
            Ok(None) => {},
            Err(e) => {
                failures.push(Failure { path: paths[i].clone(), error: e });
                assert(failure_views(failures@) =~= failed_entries(req@.query, req@.strategy, before).push((paths@[i as int]@, e)));
            },
        }
        i = i + 1;
    }
    assert(views(paths@).take(i as int) =~= views(paths@));
    ChunkReport { lines, failures }
}

} // verus!
