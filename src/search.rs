use vstd::prelude::*;
use crate::path::{file_name, file_name_of};
use crate::text::{chars_of, contains, contains_chars, escape_line, escape_spaces, lower_of, lowercase, same_chars};

verus! {

/// How an entry's name is held against the query.
#[derive(Clone, Copy, Debug, PartialEq, Eq, Structural)]
pub enum Strategy {
    Substring,
    Exact,
    Content,
    Fuzzy,
}

/// The name under which each strategy is selected.
pub open spec fn strategy_name(st: Strategy) -> Seq<char> {
    match st {
        Strategy::Substring => seq!['s', 'u', 'b', 's', 't', 'r', 'i', 'n', 'g'],
        Strategy::Exact => seq!['e', 'x', 'a', 'c', 't'],
        Strategy::Content => seq!['c', 'o', 'n', 't', 'e', 'n', 't'],
        Strategy::Fuzzy => seq!['f', 'u', 'z', 'z', 'y'],
    }
}

/// The strategy selected by `s`, if `s` names one.
pub open spec fn strategy_named(s: Seq<char>) -> Option<Strategy> {
    if s == strategy_name(Strategy::Substring) {
        Some(Strategy::Substring)
    } else if s == strategy_name(Strategy::Exact) {
        Some(Strategy::Exact)
    } else if s == strategy_name(Strategy::Content) {
        Some(Strategy::Content)
    } else if s == strategy_name(Strategy::Fuzzy) {
        Some(Strategy::Fuzzy)
    } else {
        None
    }
}

fn name_chars(st: Strategy) -> (r: Vec<char>)
    ensures
        r@ == strategy_name(st),
{
    let v = match st {
        Strategy::Substring => vec!['s', 'u', 'b', 's', 't', 'r', 'i', 'n', 'g'],
        Strategy::Exact => vec!['e', 'x', 'a', 'c', 't'],
        Strategy::Content => vec!['c', 'o', 'n', 't', 'e', 'n', 't'],
        Strategy::Fuzzy => vec!['f', 'u', 'z', 'z', 'y'],
    };
    assert(v@ =~= strategy_name(st));
    v
}

impl Strategy {
    /// The name under which this strategy is selected.
    pub fn name(&self) -> (r: String)
        ensures
            r@ == strategy_name(*self),
    {
        crate::text::string_of(&name_chars(*self))
    }
}

/// The strategy that `s` names, or `None` where it names none.
pub fn parse_strategy(s: &str) -> (r: Option<Strategy>)
    ensures
        r == strategy_named(s@),
{
    let cs = chars_of(s);
    if same_chars(&cs, &name_chars(Strategy::Substring)) {
        Some(Strategy::Substring)
    } else if same_chars(&cs, &name_chars(Strategy::Exact)) {
        Some(Strategy::Exact)
    } else if same_chars(&cs, &name_chars(Strategy::Content)) {
        Some(Strategy::Content)
    } else if same_chars(&cs, &name_chars(Strategy::Fuzzy)) {
        Some(Strategy::Fuzzy)
    } else {
        None
    }
}

/// Why one entry could not be evaluated.
#[derive(Clone, Copy, Debug, PartialEq, Eq, Structural)]
pub enum EvalError {
    /// The path has no final name component.
    NoFileName,
    /// The strategy has no matching algorithm.
    Unsupported(Strategy),
}

/// Whether a lower-cased name matches the query under `st`.
pub open spec fn name_verdict(name: Seq<char>, query: Seq<char>, st: Strategy) -> Result<bool, EvalError> {
    match st {
        Strategy::Substring => Ok(contains(name, query)),
        Strategy::Exact => Ok(name == query),
        _ => Err(EvalError::Unsupported(st)),
    }
}

/// The verdict on the entry at `path`: the strategy is checked first, then
/// the lower-cased final name component is held against the query.
pub open spec fn verdict(query: Seq<char>, st: Strategy, path: Seq<char>) -> Result<bool, EvalError> {
    match st {
        Strategy::Content | Strategy::Fuzzy => Err(EvalError::Unsupported(st)),
        _ => match file_name_of(path) {
            None => Err(EvalError::NoFileName),
            Some(n) => name_verdict(lower_of(n), query, st),
        },
    }
}

/// Holds an already lower-cased name against the query under `st`.
pub fn match_name(name: &str, query: &str, st: Strategy) -> (r: Result<bool, EvalError>)
    ensures
        r == name_verdict(name@, query@, st),
{
    match st {
        Strategy::Substring => Ok(contains_chars(&chars_of(name), &chars_of(query))),
        Strategy::Exact => Ok(same_chars(&chars_of(name), &chars_of(query))),
        _ => Err(EvalError::Unsupported(st)),
    }
}

/// The query and strategy of one run, as every task reads them.
pub struct SearchRequest {
    query: String,
    strategy: Strategy,
}

/// What a request holds: the lower-cased query and the strategy.
pub struct RequestView {
    pub query: Seq<char>,
    pub strategy: Strategy,
}

impl View for SearchRequest {
    type V = RequestView;

    closed spec fn view(&self) -> RequestView {
        RequestView { query: self.query@, strategy: self.strategy }
    }
}

impl SearchRequest {
    /// A request for `query`, lower-cased once here, under `strategy`.
    pub fn new(query: &str, strategy: Strategy) -> (r: SearchRequest)
        ensures
            r@.query == lower_of(query@),
            r@.strategy == strategy,
    {
        SearchRequest { query: lowercase(query), strategy }
    }

    /// The lower-cased query.
    pub fn query(&self) -> (r: &str)
        ensures
            r@ == self@.query,
    {
        self.query.as_str()
    }

    /// The strategy.
    pub fn strategy(&self) -> (r: Strategy)
        ensures
            r == self@.strategy,
    {
        self.strategy
    }

    /// Whether the entry at `path` matches, or why it cannot be decided.
    pub fn evaluate(&self, path: &str) -> (r: Result<bool, EvalError>)
        ensures
            r == verdict(self@.query, self@.strategy, path@),
    {
        match self.strategy {
            Strategy::Content | Strategy::Fuzzy => Err(EvalError::Unsupported(self.strategy)),
            _ => match file_name(path) {
                None => Err(EvalError::NoFileName),
                Some(n) => {
                    let lower = lowercase(n.as_str());
                    match_name(lower.as_str(), self.query.as_str(), self.strategy)
                },
            },
        }
    }

    /// The output line for the entry at `path`: `Some` of the escaped path on
    /// a match, `None` on no match.
    pub fn report(&self, path: &str) -> (r: Result<Option<String>, EvalError>)
        ensures
            match r {
                Ok(Some(line)) => verdict(self@.query, self@.strategy, path@) == Ok::<bool, EvalError>(true)
                    && line@ == escape_spaces(path@),
                Ok(None) => verdict(self@.query, self@.strategy, path@) == Ok::<bool, EvalError>(false),
                Err(e) => verdict(self@.query, self@.strategy, path@) == Err::<bool, EvalError>(e),
            },
    {
        match self.evaluate(path) {
            Ok(true) => Ok(Some(escape_line(path))),
            Ok(false) => Ok(None),
            Err(e) => Err(e),
        }
    }
}

} // verus!
