//! Parsing of collector command output into typed records.

pub mod throttled;

use vstd::prelude::*;

verus! {

/// Failure to parse a command's output line. Carries a message that embeds
/// the offending line, for diagnostics; parsers never panic on bad input.
#[derive(Clone, Debug)]
pub struct ParseError {
    pub message: String,
}

impl ParseError {
    /// A parse error whose message names the rejected input line.
    pub fn new(line: &str) -> (r: ParseError)
        ensures
            r.message@ == "invalid input: "@ + line@,
    {
        let mut message = String::new();
        message.append("invalid input: ");
        message.append(line);
        ParseError { message }
    }
}

/// A parser of one collector's command output.
///
/// `parse_model` is the parser's mathematical description: `parse` must
/// return `Ok` exactly on the inputs where the model is `Some`, with the
/// modeled value, and on every other input a [`ParseError`] naming the line.
pub trait Parser {
    type Item;

    spec fn parse_model(&self, input: Seq<char>) -> Option<Self::Item>;

    fn parse(&self, input: &str) -> (r: Result<Self::Item, ParseError>)
        ensures
            match r {
                Ok(item) => self.parse_model(input@) == Some(item),
                Err(e) => self.parse_model(input@) is None && e.message@ == "invalid input: "@
                    + input@,
            },
    ;
}

} // verus!
