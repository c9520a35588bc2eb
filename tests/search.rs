use ferret::args::{parse_args, ArgError};
use ferret::path::file_name;
use ferret::report::report_chunk;
use ferret::schedule::{chunk_ranges, chunk_size, plan_chunks, task_kind, TaskKind};
use ferret::search::{match_name, parse_strategy, EvalError, SearchRequest, Strategy};
use ferret::text::escape_line;
use std::collections::HashSet;

fn tree() -> Vec<String> {
    vec![
        "/t/a/report.txt".to_string(),
        "/t/a/Report_final.txt".to_string(),
        "/t/b/notes.md".to_string(),
    ]
}

fn as_set(lines: &[String]) -> HashSet<String> {
    lines.iter().cloned().collect()
}

#[test]
fn substring_reports_both_reports() {
    let req = SearchRequest::new("report", Strategy::Substring);
    let r = report_chunk(&req, &tree());
    assert_eq!(r.lines, vec!["/t/a/report.txt".to_string(), "/t/a/Report_final.txt".to_string()]);
    assert!(r.failures.is_empty());
}

#[test]
fn exact_reports_only_the_equal_name() {
    let req = SearchRequest::new("report.txt", Strategy::Exact);
    let r = report_chunk(&req, &tree());
    assert_eq!(r.lines, vec!["/t/a/report.txt".to_string()]);
    assert!(r.failures.is_empty());
}

#[test]
fn query_is_lower_cased_once() {
    let req = SearchRequest::new("REPORT", Strategy::Substring);
    assert_eq!(req.query(), "report");
    let r = report_chunk(&req, &tree());
    assert_eq!(r.lines.len(), 2);
}

#[test]
fn exact_is_case_insensitive() {
    let req = SearchRequest::new("REPORT_FINAL.TXT", Strategy::Exact);
    assert_eq!(req.evaluate("/t/a/Report_final.txt"), Ok(true));
    assert_eq!(req.evaluate("/t/a/report.txt"), Ok(false));
}

#[test]
fn substring_matches_the_name_only() {
    let req = SearchRequest::new("a", Strategy::Substring);
    assert_eq!(req.evaluate("/t/a/notes.md"), Ok(false));
    assert_eq!(req.evaluate("/t/b/data.md"), Ok(true));
}

#[test]
fn spaces_are_escaped() {
    let req = SearchRequest::new("my", Strategy::Substring);
    assert_eq!(req.report("my file.txt"), Ok(Some("my\\ file.txt".to_string())));
    assert_eq!(escape_line("/x y/a b c"), "/x\\ y/a\\ b\\ c");
    assert_eq!(escape_line("plain"), "plain");
    assert_eq!(escape_line(""), "");
}

#[test]
fn reported_lines_have_no_bare_space() {
    let paths = vec!["/t/my file.txt".to_string(), "/t/a b/my  doc".to_string()];
    let req = SearchRequest::new("my", Strategy::Substring);
    let r = report_chunk(&req, &paths);
    assert_eq!(r.lines.len(), 2);
    for line in &r.lines {
        let cs: Vec<char> = line.chars().collect();
        for i in 0..cs.len() {
            if cs[i] == ' ' {
                assert!(i > 0 && cs[i - 1] == '\\');
            }
        }
    }
}

#[test]
fn content_and_fuzzy_fail_per_entry() {
    for st in [Strategy::Content, Strategy::Fuzzy] {
        let req = SearchRequest::new("report", st);
        let r = report_chunk(&req, &tree());
        assert!(r.lines.is_empty());
        assert_eq!(r.failures.len(), 3);
        for (f, p) in r.failures.iter().zip(tree()) {
            assert_eq!(f.path, p);
            assert_eq!(f.error, EvalError::Unsupported(st));
        }
    }
}

#[test]
fn missing_name_fails_that_entry_only() {
    let paths = vec!["/".to_string(), "/t/report.txt".to_string(), "/t/..".to_string()];
    let req = SearchRequest::new("report", Strategy::Substring);
    let r = report_chunk(&req, &paths);
    assert_eq!(r.lines, vec!["/t/report.txt".to_string()]);
    assert_eq!(r.failures.len(), 2);
    assert_eq!(r.failures[0].path, "/");
    assert_eq!(r.failures[0].error, EvalError::NoFileName);
    assert_eq!(r.failures[1].path, "/t/..");
}

#[test]
fn repeated_and_reordered_runs_agree() {
    let req = SearchRequest::new("report", Strategy::Substring);
    let first = report_chunk(&req, &tree());
    let again = report_chunk(&req, &tree());
    let mut reversed = tree();
    reversed.reverse();
    let other = report_chunk(&req, &reversed);
    assert_eq!(as_set(&first.lines), as_set(&again.lines));
    assert_eq!(as_set(&first.lines), as_set(&other.lines));
}

#[test]
fn file_names() {
    assert_eq!(file_name("/t/a/report.txt"), Some("report.txt".to_string()));
    assert_eq!(file_name("report.txt"), Some("report.txt".to_string()));
    assert_eq!(file_name("/t/dir//"), Some("dir".to_string()));
    assert_eq!(file_name("/"), None);
    assert_eq!(file_name(""), None);
    assert_eq!(file_name("a/."), None);
    assert_eq!(file_name("a/.."), None);
    assert_eq!(file_name(".hidden"), Some(".hidden".to_string()));
}

#[test]
fn strategy_names() {
    assert_eq!(parse_strategy("substring"), Some(Strategy::Substring));
    assert_eq!(parse_strategy("exact"), Some(Strategy::Exact));
    assert_eq!(parse_strategy("content"), Some(Strategy::Content));
    assert_eq!(parse_strategy("fuzzy"), Some(Strategy::Fuzzy));
    assert_eq!(parse_strategy("Exact"), None);
    assert_eq!(parse_strategy(""), None);
    assert_eq!(Strategy::Fuzzy.name(), "fuzzy");
}

#[test]
fn name_matching() {
    assert_eq!(match_name("report_final.txt", "final", Strategy::Substring), Ok(true));
    assert_eq!(match_name("notes.md", "final", Strategy::Substring), Ok(false));
    assert_eq!(match_name("notes.md", "", Strategy::Substring), Ok(true));
    assert_eq!(match_name("notes.md", "notes.md", Strategy::Exact), Ok(true));
    assert_eq!(match_name("notes.md", "notes", Strategy::Exact), Ok(false));
    assert_eq!(match_name("ab", "abc", Strategy::Substring), Ok(false));
    assert_eq!(match_name("x", "x", Strategy::Content), Err(EvalError::Unsupported(Strategy::Content)));
}

#[test]
fn batch_sizes() {
    assert_eq!(chunk_size(10, 4), 3);
    assert_eq!(chunk_size(8, 4), 2);
    assert_eq!(chunk_size(3, 8), 1);
    assert_eq!(chunk_size(5, 0), 5);
    assert_eq!(chunk_size(0, 4), 0);
    assert_eq!(chunk_size(usize::MAX, 1), usize::MAX);
}

#[test]
fn batch_ranges() {
    assert_eq!(chunk_ranges(10, 4), vec![(0, 3), (3, 6), (6, 9), (9, 10)]);
    assert_eq!(chunk_ranges(4, 4), vec![(0, 1), (1, 2), (2, 3), (3, 4)]);
    assert_eq!(chunk_ranges(5, 1), vec![(0, 5)]);
    assert!(chunk_ranges(0, 4).is_empty());
}

#[test]
fn pool_batches_cover_every_entry() {
    assert!(plan_chunks(0).is_empty());
    let r = plan_chunks(37);
    assert_eq!(r[0].0, 0);
    assert_eq!(r[r.len() - 1].1, 37);
    for w in r.windows(2) {
        assert_eq!(w[0].1, w[1].0);
    }
}

#[test]
fn dispatch() {
    assert_eq!(task_kind(true), TaskKind::Walk);
    assert_eq!(task_kind(false), TaskKind::Evaluate);
}

fn strings(v: &[&str]) -> Vec<String> {
    v.iter().map(|s| s.to_string()).collect()
}

#[test]
fn command_lines() {
    assert!(matches!(parse_args(&strings(&["p", "/t"])), Err(ArgError::Usage)));
    assert!(matches!(parse_args(&strings(&["p", "/t", "q", "exact", "x"])), Err(ArgError::Usage)));
    match parse_args(&strings(&["p", "/t", "q", "nearby"])) {
        Err(ArgError::InvalidStrategy(s)) => assert_eq!(s, "nearby"),
        _ => panic!("strategy accepted"),
    }
    let inv = parse_args(&strings(&["p", "/t", "ReP"])).unwrap();
    assert_eq!(inv.directory, "/t");
    assert_eq!(inv.request.query(), "rep");
    assert_eq!(inv.request.strategy(), Strategy::Substring);
    let inv = parse_args(&strings(&["p", "/t", "q", "fuzzy"])).unwrap();
    assert_eq!(inv.request.strategy(), Strategy::Fuzzy);
}
