//! Table-name extraction for SQL `SELECT` statements.
//!
//! The crate walks a query tree and reports every base table that the query
//! reads from, once each, in the order of first occurrence: tables in joins,
//! in subqueries used as sources, in parenthesized groups of joins and in the
//! branches of compound selects.
//!
//! - `model` says what a query tree is and which tables it refers to.
//! - `ast` holds the tree as data.
//! - `collect` walks the tree and collects the tables.
//! - `names` turns the tables into strings.
//! - `sqlite` takes a query from what the parser of the `sqlite3_parser`
//!   crate gave for a text.
//! - `laws` proves what holds of extraction for every query.

use vstd::prelude::*;

pub mod ast;
pub mod collect;
pub mod laws;
pub mod model;
pub mod names;
pub mod sqlite;

use crate::ast::Query;
use crate::collect::{distinct, extract_table_names};
use crate::model::QueryModel;
use crate::names::{extract_table_name_strings, string_views, table_strings};
use crate::sqlite::{parsed_view, query_from_parse, query_of_parse};

verus! {

/// Why the answer of the parser gives no `SELECT` tree.
#[derive(Clone, Copy, Debug, PartialEq, Eq, Structural)]
pub enum ExtractError {
    /// The command is not a plain `SELECT` statement.
    UnsupportedStatement,
    /// The parser found no command in the text.
    NoStatement,
    /// The parser reported an error: the text is not valid SQL.
    ParseFailure,
}

/// The table names of a query as strings: the distinct references in the
/// order of first occurrence, each as its string, and of equal strings only
/// the first.
pub open spec fn query_table_strings(query: QueryModel) -> Seq<Seq<char>> {
    distinct(table_strings(distinct(query.references())))
}

/// The table names that a parse gives: those of the query where there is
/// one, and none where there is none, whatever the reason.
pub open spec fn parsed_table_strings(parsed: Result<QueryModel, ExtractError>) -> Seq<Seq<char>> {
    match parsed {
        Ok(query) => query_table_strings(query),
        Err(_) => Seq::empty(),
    }
}

/// The table names of a query, as strings.
pub fn query_table_names(query: &Query) -> (names: Vec<String>)
    ensures
        string_views(names@) == query_table_strings(query@),
        string_views(names@).no_duplicates(),
{
    let qualified_table_names = extract_table_names(query);
    extract_table_name_strings(qualified_table_names.as_slice())
}

/// The table names for the outcome of a parse: those of the query, or the
/// empty list where the parse gave no query.
pub fn parsed_table_names(parsed: &Result<Query, ExtractError>) -> (names: Vec<String>)
    ensures
        string_views(names@) == parsed_table_strings(parsed_view(*parsed)),
        string_views(names@).no_duplicates(),
{
    match parsed {
        Ok(query) => query_table_names(query),
        Err(_) => {
            let names: Vec<String> = Vec::new();
            assert(string_views(names@) =~= Seq::<Seq<char>>::empty());
            names
        },
    }
}

/// Names the tables that a text reads from, given what the parser gave for
/// it: the first item of `sqlite3_parser::lexer::sql::Parser`. Where that is
/// not a plain `SELECT` statement, where the text held no command and where
/// the parser reported an error, the list is empty.
pub fn parse_sql_command_for_table_names(
    sql_command: &Result<Option<sqlite3_parser::ast::Cmd>, sqlite3_parser::lexer::sql::Error>,
) -> (names: Vec<String>)
    ensures
        string_views(names@) == parsed_table_strings(query_of_parse(*sql_command)),
        string_views(names@).no_duplicates(),
{
    let parsed = query_from_parse(sql_command);
    parsed_table_names(&parsed)
}

} // verus!
