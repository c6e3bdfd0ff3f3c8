//! The bridge to the SQLite grammar of the `sqlite3_parser` crate: taking
//! what its parser gives for a text, and rebuilding the tree of a parsed
//! `SELECT` statement in the types of this crate.
//!
//! The parser itself is not called here: on some texts it panics rather than
//! report an error, and nothing in this crate can tell those texts from the
//! others. The caller runs the parser and hands over what it gave.
//!
//! A parsed statement is opaque here. What it holds is named by a function
//! without a body, one for each kind of node, and each function that reads a
//! node says in those names what it hands back. Nothing in this file is
//! proved about the parser; the rebuilding is proved against these
//! statements.

use vstd::prelude::*;

use crate::ast::{
    lemma_query_core_views, lemma_source_views, query_core_views, source_views, JoinClause,
    QualifiedName, Query, QueryBody, QueryCore, Source,
};
use crate::model::{CommandModel, JoinClauseModel, QueryCoreModel, QueryModel, SourceModel};
use crate::ExtractError;

verus! {

/// `sqlite3_parser::ast::Cmd`, a parsed command.
#[verifier::external_type_specification]
#[verifier::external_body]
pub struct ExCmd(sqlite3_parser::ast::Cmd);

/// `sqlite3_parser::lexer::sql::Error`, the error of the parser.
#[verifier::external_type_specification]
#[verifier::external_body]
pub struct ExError(sqlite3_parser::lexer::sql::Error);

/// `sqlite3_parser::ast::Select`, a parsed `SELECT` statement.
#[verifier::external_type_specification]
#[verifier::external_body]
pub struct ExSelect(sqlite3_parser::ast::Select);

/// `sqlite3_parser::ast::OneSelect`, a parsed query core.
#[verifier::external_type_specification]
#[verifier::external_body]
pub struct ExOneSelect(sqlite3_parser::ast::OneSelect);

/// `sqlite3_parser::ast::FromClause`, a parsed `FROM` clause.
#[verifier::external_type_specification]
#[verifier::external_body]
pub struct ExFromClause(sqlite3_parser::ast::FromClause);

/// `sqlite3_parser::ast::SelectTable`, a parsed source of a `FROM` clause.
#[verifier::external_type_specification]
#[verifier::external_body]
pub struct ExSelectTable(sqlite3_parser::ast::SelectTable);

/// What a `sqlite3_parser::ast::Cmd` holds: its kind, and of a plain
/// `SELECT` statement the tree.
pub uninterp spec fn parsed_command(command: sqlite3_parser::ast::Cmd) -> CommandModel;

/// What a `sqlite3_parser::ast::Select` holds of the tree: the sources of
/// its body, node for node; no `WITH`, `ORDER BY` or `LIMIT`.
pub uninterp spec fn parsed_select(select: sqlite3_parser::ast::Select) -> QueryModel;

/// What a `sqlite3_parser::ast::OneSelect` holds of the tree: its kind, and
/// the `FROM` clause where it has one.
pub uninterp spec fn parsed_one_select(core: sqlite3_parser::ast::OneSelect) -> QueryCoreModel;

/// What a `sqlite3_parser::ast::FromClause` holds of the tree: the primary
/// source and the joined sources, without operators and constraints.
pub uninterp spec fn parsed_from_clause(from: sqlite3_parser::ast::FromClause) -> JoinClauseModel;

/// What a `sqlite3_parser::ast::SelectTable` holds of the tree: its kind,
/// and the name of the table or function, or the node inside.
pub uninterp spec fn parsed_select_table(table: sqlite3_parser::ast::SelectTable) -> SourceModel;

/// What a parsed command is made of.
enum CommandParts<'a> {
    Query(&'a sqlite3_parser::ast::Select),
    Explain,
    ExplainQueryPlan,
    Other,
}

/// What a parsed query core is made of.
enum CoreParts<'a> {
    Rows(Option<&'a sqlite3_parser::ast::FromClause>),
    Values,
}

/// What a parsed source is made of.
enum SourceParts<'a> {
    Table(QualifiedName),
    TableCall(QualifiedName),
    Subquery(&'a sqlite3_parser::ast::Select),
    Group(&'a sqlite3_parser::ast::FromClause),
}

/// Tells the variants of `sqlite3_parser::ast::Cmd` apart, and under
/// `Cmd::Stmt` the variant `Stmt::Select` from all others. Of a plain
/// `SELECT` statement it hands out the statement; what stands under
/// `EXPLAIN` is left where it is.
#[verifier::external_body]
fn command_parts(command: &sqlite3_parser::ast::Cmd) -> (parts: CommandParts<'_>)
    ensures
        match parts {
            CommandParts::Query(select) => parsed_command(*command) == CommandModel::Query(
                parsed_select(*select),
            ),
            CommandParts::Explain => parsed_command(*command) == CommandModel::Explain,
            CommandParts::ExplainQueryPlan => parsed_command(*command)
                == CommandModel::ExplainQueryPlan,
            CommandParts::Other => parsed_command(*command) == CommandModel::Other,
        },
{
    match command {
        sqlite3_parser::ast::Cmd::Stmt(sqlite3_parser::ast::Stmt::Select(select)) => {
            CommandParts::Query(select)
        },
        sqlite3_parser::ast::Cmd::Stmt(_) => CommandParts::Other,
        sqlite3_parser::ast::Cmd::Explain(_) => CommandParts::Explain,
        sqlite3_parser::ast::Cmd::ExplainQueryPlan(_) => CommandParts::ExplainQueryPlan,
    }
}

/// Reads the field `body.select` of `sqlite3_parser::ast::Select`: the first
/// core of the statement's body.
#[verifier::external_body]
fn select_first_core(select: &sqlite3_parser::ast::Select) -> (core: &sqlite3_parser::ast::OneSelect)
    ensures
        parsed_one_select(*core) == parsed_select(*select).body.select,
{
    &select.body.select
}

/// Reads the field `body.compounds` of `sqlite3_parser::ast::Select`, and of
/// each `CompoundSelect` in it the field `select`: the cores of the compound
/// branches, in order, if the body has a list of them.
#[verifier::external_body]
fn select_compound_cores(select: &sqlite3_parser::ast::Select) -> (cores: Option<
    Vec<&sqlite3_parser::ast::OneSelect>,
>)
    ensures
        cores is Some <==> parsed_select(*select).body.compounds is Some,
        cores matches Some(found) ==> found.len() == parsed_select(
            *select,
        ).body.compounds->0.len(),
        cores matches Some(found) ==> forall|i: int|
            0 <= i < found.len() ==> parsed_one_select(*#[trigger] found[i]) == parsed_select(
                *select,
            ).body.compounds->0[i],
{
    select.body.compounds.as_ref().map(|compounds| compounds.iter().map(|c| &c.select).collect())
}

/// Tells the variants of `sqlite3_parser::ast::OneSelect` apart, and reads
/// the field `from` of `OneSelect::Select`. The other fields, and the rows of
/// `OneSelect::Values`, are left where they are.
#[verifier::external_body]
fn one_select_parts(core: &sqlite3_parser::ast::OneSelect) -> (parts: CoreParts<'_>)
    ensures
        match parts {
            CoreParts::Rows(Some(from)) => parsed_one_select(*core) == (QueryCoreModel::Rows {
                from: Some(parsed_from_clause(*from)),
            }),
            CoreParts::Rows(None) => parsed_one_select(*core) == (QueryCoreModel::Rows {
                from: None,
            }),
            CoreParts::Values => parsed_one_select(*core) == QueryCoreModel::Values,
        },
{
    match core {
        sqlite3_parser::ast::OneSelect::Select { from, .. } => CoreParts::Rows(from.as_ref()),
        sqlite3_parser::ast::OneSelect::Values(_) => CoreParts::Values,
    }
}

/// Reads the field `select` of `sqlite3_parser::ast::FromClause`: the primary
/// source, if the clause has one.
#[verifier::external_body]
fn from_clause_primary(from: &sqlite3_parser::ast::FromClause) -> (primary: Option<
    &sqlite3_parser::ast::SelectTable,
>)
    ensures
        match primary {
            Some(table) => parsed_from_clause(*from).select == Some(
                Box::new(parsed_select_table(*table)),
            ),
            None => parsed_from_clause(*from).select is None,
        },
{
    from.select.as_deref()
}

/// Reads the field `joins` of `sqlite3_parser::ast::FromClause`, and of each
/// `JoinedSelectTable` in it the field `table`: the joined sources, in order,
/// if the clause has a list of them.
#[verifier::external_body]
fn from_clause_joined(from: &sqlite3_parser::ast::FromClause) -> (joined: Option<
    Vec<&sqlite3_parser::ast::SelectTable>,
>)
    ensures
        joined is Some <==> parsed_from_clause(*from).joins is Some,
        joined matches Some(found) ==> found.len() == parsed_from_clause(*from).joins->0.len(),
        joined matches Some(found) ==> forall|i: int|
            0 <= i < found.len() ==> parsed_select_table(*#[trigger] found[i])
                == parsed_from_clause(*from).joins->0[i],
{
    from.joins.as_ref().map(|joins| joins.iter().map(|j| &j.table).collect())
}

/// Tells the variants of `sqlite3_parser::ast::SelectTable` apart. Of a table
/// and of a table-valued function it copies the name: the text of `db_name`,
/// where there is one, as the schema, and the text of `name`. Of a subquery
/// and of a group of joins it hands out the node inside. Aliases, index
/// hints and the arguments of a function are left where they are. The text
/// of a name is the parser's: an identifier as written, quoting characters
/// included, and a keyword that serves as an identifier in upper case.
#[verifier::external_body]
fn select_table_parts(table: &sqlite3_parser::ast::SelectTable) -> (parts: SourceParts<'_>)
    ensures
        match parts {
            SourceParts::Table(name) => parsed_select_table(*table) == SourceModel::Table(name@),
            SourceParts::TableCall(name) => parsed_select_table(*table) == SourceModel::TableCall(
                name@,
            ),
            SourceParts::Subquery(select) => parsed_select_table(*table) == SourceModel::Subquery(
                parsed_select(*select),
            ),
            SourceParts::Group(from) => parsed_select_table(*table) == SourceModel::Group(
                parsed_from_clause(*from),
            ),
        },
{
    match table {
        sqlite3_parser::ast::SelectTable::Table(q, _, _) => SourceParts::Table(
            QualifiedName { schema: q.db_name.as_ref().map(|n| n.0.clone()), name: q.name.0.clone() },
        ),
        sqlite3_parser::ast::SelectTable::TableCall(q, _, _) => SourceParts::TableCall(
            QualifiedName { schema: q.db_name.as_ref().map(|n| n.0.clone()), name: q.name.0.clone() },
        ),
        sqlite3_parser::ast::SelectTable::Select(select, _) => SourceParts::Subquery(select),
        sqlite3_parser::ast::SelectTable::Sub(from, _) => SourceParts::Group(from),
    }
}

/// Rebuilds a parsed source.
fn rebuild_select_table(table: &sqlite3_parser::ast::SelectTable) -> (source: Source)
    ensures
        source@ == parsed_select_table(*table),
    decreases parsed_select_table(*table),
{
    match select_table_parts(table) {
        SourceParts::Table(name) => Source::Table(name),
        SourceParts::TableCall(name) => Source::TableCall(name),
        SourceParts::Subquery(select) => {
            assert(decreases_to!(parsed_select_table(*table)
                => parsed_select_table(*table)->Subquery_0));
            Source::Subquery(rebuild_select(select))
        },
        SourceParts::Group(from) => {
            assert(decreases_to!(parsed_select_table(*table)
                => parsed_select_table(*table)->Group_0));
            Source::Group(rebuild_from_clause(from))
        },
    }
}

/// Rebuilds a parsed `FROM` clause: the primary source, then each joined
/// source in order.
fn rebuild_from_clause(from: &sqlite3_parser::ast::FromClause) -> (clause: JoinClause)
    ensures
        clause@ == parsed_from_clause(*from),
    decreases parsed_from_clause(*from),
{
    let select = match from_clause_primary(from) {
        Some(table) => {
            assert(decreases_to!(parsed_from_clause(*from).select
                => parsed_from_clause(*from).select->0));
            Some(Box::new(rebuild_select_table(table)))
        },
        None => None,
    };
    let joins = match from_clause_joined(from) {
        Some(found) => {
            let ghost joins = parsed_from_clause(*from).joins->0;
            let mut sources: Vec<Source> = Vec::new();
            let mut i: usize = 0;
            while i < found.len()
                invariant
                    i <= found.len(),
                    parsed_from_clause(*from).joins == Some(joins),
                    found.len() == joins.len(),
                    forall|j: int|
                        0 <= j < found.len() ==> parsed_select_table(*#[trigger] found[j])
                            == joins[j],
                    sources.len() == i,
                    forall|j: int| 0 <= j < i ==> (#[trigger] sources[j])@ == joins[j],
                decreases found.len() - i,
            {
                proof {
                    assert(decreases_to!(joins => joins[i as int]));
                    assert(decreases_to!(parsed_from_clause(*from).joins
                        => parsed_from_clause(*from).joins->0));
                }
                sources.push(rebuild_select_table(found[i]));
                i += 1;
            }
            proof {
                lemma_source_views(sources@);
                assert(source_views(sources@) =~= joins);
            }
            Some(sources)
        },
        None => None,
    };
    JoinClause { select, joins }
}

/// Rebuilds a parsed query core.
fn rebuild_one_select(core: &sqlite3_parser::ast::OneSelect) -> (rebuilt: QueryCore)
    ensures
        rebuilt@ == parsed_one_select(*core),
    decreases parsed_one_select(*core),
{
    match one_select_parts(core) {
        CoreParts::Rows(Some(from)) => {
            assert(decreases_to!(parsed_one_select(*core) => parsed_one_select(*core)->from));
            assert(decreases_to!(parsed_one_select(*core)->from
                => parsed_one_select(*core)->from->0));
            QueryCore::Rows { from: Some(rebuild_from_clause(from)) }
        },
        CoreParts::Rows(None) => QueryCore::Rows { from: None },
        CoreParts::Values => QueryCore::Values,
    }
}

/// Rebuilds a parsed `SELECT` statement: the first core of its body, then
/// each compound branch in order.
pub fn rebuild_select(select: &sqlite3_parser::ast::Select) -> (query: Query)
    ensures
        query@ == parsed_select(*select),
    decreases parsed_select(*select),
{
    let first = rebuild_one_select(select_first_core(select));
    let compounds = match select_compound_cores(select) {
        Some(found) => {
            let ghost compounds = parsed_select(*select).body.compounds->0;
            let mut cores: Vec<QueryCore> = Vec::new();
            let mut i: usize = 0;
            while i < found.len()
                invariant
                    i <= found.len(),
                    parsed_select(*select).body.compounds == Some(compounds),
                    found.len() == compounds.len(),
                    forall|j: int|
                        0 <= j < found.len() ==> parsed_one_select(*#[trigger] found[j])
                            == compounds[j],
                    cores.len() == i,
                    forall|j: int| 0 <= j < i ==> (#[trigger] cores[j])@ == compounds[j],
                decreases found.len() - i,
            {
                proof {
                    assert(decreases_to!(compounds => compounds[i as int]));
                    assert(decreases_to!(parsed_select(*select).body.compounds
                        => parsed_select(*select).body.compounds->0));
                }
                cores.push(rebuild_one_select(found[i]));
                i += 1;
            }
            proof {
                lemma_query_core_views(cores@);
                assert(query_core_views(cores@) =~= compounds);
            }
            Some(cores)
        },
        None => None,
    };
    Query { body: QueryBody { select: first, compounds } }
}

/// What a command gives to table extraction: the tree of a plain `SELECT`
/// statement, and for any other command that it is not supported. A
/// statement under `EXPLAIN` is not a plain `SELECT`, whatever it explains.
pub open spec fn query_of_command(command: CommandModel) -> Result<QueryModel, ExtractError> {
    match command {
        CommandModel::Query(query) => Ok(query),
        CommandModel::Explain => Err(ExtractError::UnsupportedStatement),
        CommandModel::ExplainQueryPlan => Err(ExtractError::UnsupportedStatement),
        CommandModel::Other => Err(ExtractError::UnsupportedStatement),
    }
}

/// What the answer of the parser gives to table extraction: what its command
/// gives where it has one, and else the reason why there is none: the text
/// held no command, or the parser reported an error.
pub open spec fn query_of_parse(
    parse: Result<Option<sqlite3_parser::ast::Cmd>, sqlite3_parser::lexer::sql::Error>,
) -> Result<QueryModel, ExtractError> {
    match parse {
        Ok(Some(command)) => query_of_command(parsed_command(command)),
        Ok(None) => Err(ExtractError::NoStatement),
        Err(_) => Err(ExtractError::ParseFailure),
    }
}

/// The outcome of reading a query as mathematics: the view of the tree, or
/// the reason why there is none.
pub open spec fn parsed_view(parsed: Result<Query, ExtractError>) -> Result<
    QueryModel,
    ExtractError,
> {
    match parsed {
        Ok(query) => Ok(query@),
        Err(error) => Err(error),
    }
}

/// Takes what the parser gave for a text, the first item of
/// `sqlite3_parser::lexer::sql::Parser`, and hands out the tree where that is
/// a plain `SELECT` statement, and else the reason why there is none.
pub fn query_from_parse(
    parse: &Result<Option<sqlite3_parser::ast::Cmd>, sqlite3_parser::lexer::sql::Error>,
) -> (parsed: Result<Query, ExtractError>)
    ensures
        parsed_view(parsed) == query_of_parse(*parse),
{
    match parse {
        Ok(Some(command)) => match command_parts(command) {
            CommandParts::Query(select) => Ok(rebuild_select(select)),
            CommandParts::Explain => Err(ExtractError::UnsupportedStatement),
            CommandParts::ExplainQueryPlan => Err(ExtractError::UnsupportedStatement),
            CommandParts::Other => Err(ExtractError::UnsupportedStatement),
        },
        Ok(None) => Err(ExtractError::NoStatement),
        Err(_) => Err(ExtractError::ParseFailure),
    }
}

} // verus!
