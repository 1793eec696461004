//! The query that the left half of the main pane shows, in the canonical
//! layout that `graphql_parser` prints.

use vstd::prelude::*;

verus! {

/// The query on display.
pub const QUERY: &'static str = "query character { id, name, status }";

/// The query on display as the parser's printer lays it out: one field to a
/// line, indented by two blanks.
pub const QUERY_LAYOUT: &'static str = "query character {\n  id\n  name\n  status\n}\n";

/// The error type of `graphql_parser`'s query parser. Nothing is known of a
/// value of it here.
#[verifier::external_type_specification]
#[verifier::external_body]
pub struct ExParseError(graphql_parser::query::ParseError);

/// Parses `text` with `graphql_parser::query::parse_query` and prints the
/// document through its `Display` impl. Trusted, of the query on display and
/// of no other text: that the parser accepts it, and that the printer lays
/// it out as `QUERY_LAYOUT` says.
#[verifier::external_body]
fn parse_and_print(text: &str) -> (printed: Result<String, graphql_parser::query::ParseError>)
    requires
        text@ == QUERY@,
    ensures
        printed.is_ok(),
        printed.unwrap()@ == QUERY_LAYOUT@,
{
    match graphql_parser::query::parse_query::<&str>(text) {
        Ok(document) => Ok(format!("{}", document)),
        Err(error) => Err(error),
    }
}

/// The message of a parse error, from the `Display` impl of
/// `graphql_parser::query::ParseError`. Nothing is claimed of the text.
#[verifier::external_body]
fn parse_error_message(error: &graphql_parser::query::ParseError) -> (message: String) {
    format!("{}", error)
}

/// Why a query could not be laid out.
#[derive(Debug)]
pub struct QueryError {
    /// The parser's own words.
    pub message: String,
}

/// The query on display in its canonical layout. It always succeeds; the
/// error is that of the parser, which has none for this query.
pub fn formatted_query() -> (formatted: Result<String, QueryError>)
    ensures
        formatted.is_ok(),
        formatted.unwrap()@ == QUERY_LAYOUT@,
{
    match parse_and_print(QUERY) {
        Ok(layout) => Ok(layout),
        Err(error) => Err(QueryError { message: parse_error_message(&error) }),
    }
}

} // verus!
