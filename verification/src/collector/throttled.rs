//! The throttled collection unit: command runner, line parser and registerer
//! composed into one named collector.
//!
//! A failure at any stage aborts the poll and leaves the registry untouched;
//! in particular a parse failure never reaches the registerer.

use vstd::prelude::*;

use crate::executor::Executor;
use crate::metrics::{CollectError, Collector, Registerer};
use crate::parser::throttled::ThrottledState;
use crate::parser::Parser;
use crate::registry::Registry;

verus! {

/// The throttled collector: runs the executor, parses its output, and hands
/// the decoded record to the registerer.
#[derive(Clone, Debug)]
pub struct Throttled<E, P, R> {
    pub executor: E,
    pub parser: P,
    pub registerer: R,
}

impl<E, P, R> Throttled<E, P, R> {
    /// A collector out of its three stages.
    pub fn new(executor: E, parser: P, registerer: R) -> (r: Throttled<E, P, R>)
        ensures
            r.executor == executor,
            r.parser == parser,
            r.registerer == registerer,
    {
        Throttled { executor, parser, registerer }
    }
}

impl<E, P, R> Throttled<E, P, R> where
    P: Parser<Item = ThrottledState>,
    R: Registerer<Item = ThrottledState>,
 {
    /// Feeds one captured command output line through the parser and the
    /// registerer. On success the registry has taken exactly the
    /// registerer's projection of the parsed record; on failure it is
    /// untouched, and the error says which stage refused.
    pub fn ingest(&self, output: &str, registry: &mut Registry) -> (r: Result<(), CollectError>)
        ensures
            match r {
                Ok(_) => self.registerer.wf(old(registry)@) && match self.parser.parse_model(
                    output@,
                ) {
                    Some(state) => final(registry)@ == self.registerer.apply(
                        old(registry)@,
                        state,
                    ),
                    None => false,
                },
                Err(e) => final(registry)@ == old(registry)@ && match e {
                    CollectError::Exec(_) => false,
                    CollectError::Parse(p) => self.parser.parse_model(output@) is None
                        && p.message@ == "invalid input: "@ + output@,
                    CollectError::Register(_) => self.parser.parse_model(output@) is Some
                        && !self.registerer.wf(old(registry)@),
                },
            },
    {
        let state = match self.parser.parse(output) {
            Ok(state) => state,
            Err(e) => {
                return Err(CollectError::Parse(e));
            },
        };
        match self.registerer.register(state, registry) {
            Ok(_) => Ok(()),
            Err(e) => Err(CollectError::Register(e)),
        }
    }
}

impl<E, P, R> Collector for Throttled<E, P, R> where
    E: Executor,
    P: Parser<Item = ThrottledState>,
    R: Registerer<Item = ThrottledState>,
 {
    open spec fn spec_name(&self) -> Seq<char> {
        "throttled"@
    }

    fn name(&self) -> (r: &'static str) {
        "throttled"
    }

    /// Whatever the executor returned, a successful collection means the
    /// registry was well formed and took exactly the registerer's projection
    /// of a record that the parser's model accepts for some output line.
    fn collect(&self, registry: &mut Registry) -> (r: Result<(), CollectError>)
        ensures
            r is Ok ==> self.registerer.wf(old(registry)@) && exists|
                line: Seq<char>,
                state: ThrottledState,
            |
                self.parser.parse_model(line) == Some(state) && final(registry)@
                    == self.registerer.apply(old(registry)@, state),
    {
        let output = match self.executor.execute() {
            Ok(output) => output,
            Err(e) => {
                return Err(CollectError::Exec(e));
            },
        };
        let r = self.ingest(output.as_str(), registry);
        proof {
            if r is Ok {
                let state = choose|state: ThrottledState|
                    self.parser.parse_model(output@) == Some(state);
                assert(self.parser.parse_model(output@) == Some(state) && registry@
                    == self.registerer.apply(old(registry)@, state));
            }
        }
        r
    }
}

} // verus!
