//! The statement dispatcher applied to whole inputs.

use vstd::prelude::*;
use vstd::string::StringExecFns;

use crate::ast::parser::sp_statement;
use crate::ast::parser::sp_select;
use crate::ast::parser::wrap_agrees;
use crate::ast::parser::Parsed;
use crate::ast::parser::utils::to_chars;
use crate::ast::Select;
use crate::ast::Statement;

verus! {

/// The method token that chose the sub-grammar of a statement line.
#[derive(Debug, PartialEq, Eq, Structural, Clone, Copy)]
pub enum Prefix {
    Get,
    Put,
    Post,
    Patch,
    Delete,
}

/// Parses a statement line given as a string.
pub fn parse_statement(url: &str) -> (r: Result<Statement, crate::Error>)
    ensures
        wrap_agrees(r, sp_statement(url@, 0)),
{
    let url_chars = to_chars(url);
    parse_statement_chars(&url_chars)
}

/// Parses a statement line given as characters.
pub fn parse_statement_chars(input: &Vec<char>) -> (r: Result<Statement, crate::Error>)
    ensures
        wrap_agrees(r, sp_statement(input@, 0)),
{
    match crate::ast::parser::statement_at(input, 0) {
        Ok((st, _)) => Ok(st),
        Err(e) => Err(crate::ast::parser::perr_to_error(e, "statement")),
    }
}

/// Parses a statement header line: the dispatcher on characters.
pub fn parse_header(input: &Vec<char>) -> (r: Result<Statement, crate::Error>)
    ensures
        wrap_agrees(r, sp_statement(input@, 0)),
{
    parse_statement_chars(input)
}

/// Parses a URL path as a select: a slash followed by the select grammar.
pub fn parse_select_chars(input: &Vec<char>) -> (r: Result<Select, crate::Error>)
    ensures
        input@.len() > 0 && input@[0] == '/' ==> wrap_agrees(r, sp_select(input@, 1)),
        !(input@.len() > 0 && input@[0] == '/') ==> r is Err,
{
    if input.len() > 0 && input[0] == '/' {
        match crate::ast::parser::select_at(input, 1) {
            Ok((sel, _)) => Ok(sel),
            Err(e) => Err(crate::ast::parser::perr_to_error(e, "select")),
        }
    } else {
        Err(crate::Error::ParseError(0, String::from_str("leading slash")))
    }
}

} // verus!
