use vstd::prelude::*;
use crate::search::{parse_strategy, strategy_named, SearchRequest, Strategy};
use crate::text::lower_of;

verus! {

/// Why the command line was refused.
#[derive(Debug)]
pub enum ArgError {
    /// Neither two nor three arguments followed the program name.
    Usage,
    /// The strategy argument names no strategy; it is held here.
    InvalidStrategy(String),
}

/// A validated command line: the root to search and the request.
pub struct Invocation {
    pub directory: String,
    pub request: SearchRequest,
}

/// Reads `<program> <directory> <query> [strategy]`, with `substring` as the
/// default strategy and the query lower-cased.
pub fn parse_args(args: &Vec<String>) -> (r: Result<Invocation, ArgError>)
    ensures
        (args@.len() != 3 && args@.len() != 4) <==> r matches Err(ArgError::Usage),
        args@.len() == 4 && strategy_named(args@[3]@) is None <==> r matches Err(ArgError::InvalidStrategy(_)),
        r matches Err(ArgError::InvalidStrategy(s)) ==> s@ == args@[3]@,
        r matches Ok(inv) ==> {
            &&& inv.directory@ == args@[1]@
            &&& inv.request@.query == lower_of(args@[2]@)
            &&& inv.request@.strategy == (if args@.len() == 4 {
                strategy_named(args@[3]@)->0
            } else {
                Strategy::Substring
            })
        },
{
    if args.len() != 3 && args.len() != 4 {
        return Err(ArgError::Usage);
    }
    let strategy = if args.len() == 4 {
        match parse_strategy(args[3].as_str()) {
            Some(st) => st,
            None => return Err(ArgError::InvalidStrategy(args[3].clone())),
        }
    } else {
        Strategy::Substring
    };
    let request = SearchRequest::new(args[2].as_str(), strategy);
    Ok(Invocation { directory: args[1].clone(), request })
}

} // verus!
