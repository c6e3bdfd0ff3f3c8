use rust_sql_parser::ast::{JoinClause, QualifiedName, Query, QueryBody, QueryCore, Source};
use rust_sql_parser::collect::extract_table_names;
use fallible_iterator::FallibleIterator;
use rust_sql_parser::sqlite::{query_from_parse, rebuild_select};
use rust_sql_parser::{parse_sql_command_for_table_names, ExtractError};
use sqlite3_parser::ast::{Cmd, Stmt};
use sqlite3_parser::lexer::sql::Parser;

fn parse_select(sql: &str) -> Result<Query, ExtractError> {
    query_from_parse(&Parser::new(sql.as_bytes()).next())
}

fn names_of(sql: &str) -> Vec<String> {
    parse_sql_command_for_table_names(&Parser::new(sql.as_bytes()).next())
}

fn table(name: &str) -> Source {
    Source::Table(QualifiedName { schema: None, name: name.to_string() })
}

fn reads(primary: Source, joins: Option<Vec<Source>>) -> QueryCore {
    QueryCore::Rows { from: Some(JoinClause { select: Some(Box::new(primary)), joins }) }
}

fn alone(core: QueryCore) -> Query {
    Query { body: QueryBody { select: core, compounds: None } }
}

#[test]
fn parse_select_of_a_single_table() {
    assert_eq!(
        parse_select("SELECT * FROM bananas WHERE color = 'red'"),
        Ok(alone(reads(table("bananas"), None)))
    );
}

#[test]
fn parse_select_of_a_qualified_table() {
    let source = Source::Table(QualifiedName {
        schema: Some("apples".to_string()),
        name: "bananas".to_string(),
    });
    assert_eq!(
        parse_select("SELECT * FROM apples.bananas"),
        Ok(alone(reads(source, None)))
    );
}

#[test]
fn parse_select_db_name_entry_has_schema_and_name() {
    let query = parse_select("SELECT *\nFROM apples.bananas\nWHERE color = 'red'").unwrap();
    let names = extract_table_names(&query);
    assert_eq!(names.len(), 1);
    assert_eq!(names[0].schema, Some("apples".to_string()));
    assert_eq!(names[0].name, "bananas");
}

#[test]
fn parse_select_drops_the_alias_of_a_table() {
    assert_eq!(
        parse_select("SELECT * FROM bananas AS b"),
        Ok(alone(reads(table("bananas"), None)))
    );
}

#[test]
fn parse_select_without_from() {
    assert_eq!(parse_select("SELECT 1"), Ok(alone(QueryCore::Rows { from: None })));
}

#[test]
fn parse_select_of_values() {
    assert_eq!(parse_select("VALUES (1, 2)"), Ok(alone(QueryCore::Values)));
}

#[test]
fn parse_select_of_joins_keeps_their_order() {
    assert_eq!(
        parse_select("SELECT * FROM a JOIN b ON a.x = b.x, c LEFT JOIN a USING (y)"),
        Ok(alone(reads(table("a"), Some(vec![table("b"), table("c"), table("a")]))))
    );
}

#[test]
fn parse_select_of_a_table_valued_function() {
    let call = Source::TableCall(QualifiedName { schema: None, name: "json_each".to_string() });
    assert_eq!(
        parse_select("SELECT * FROM json_each('[1]') AS j"),
        Ok(alone(reads(call, None)))
    );
}

#[test]
fn parse_select_of_a_subquery_source() {
    let inner = alone(reads(table("Rooms"), None));
    assert_eq!(
        parse_select("SELECT * FROM Movies m JOIN (SELECT id FROM Rooms r2) AS r ON m.id = r.id"),
        Ok(alone(reads(table("Movies"), Some(vec![Source::Subquery(inner)]))))
    );
}

#[test]
fn parse_select_of_a_parenthesized_join_group() {
    let group = JoinClause {
        select: Some(Box::new(table("b"))),
        joins: Some(vec![table("c")]),
    };
    assert_eq!(
        parse_select("SELECT * FROM a JOIN (b JOIN c)"),
        Ok(alone(reads(table("a"), Some(vec![Source::Group(group)]))))
    );
}

#[test]
fn parse_select_of_compound_branches() {
    let expected = Query {
        body: QueryBody {
            select: reads(table("a"), None),
            compounds: Some(vec![
                reads(table("b"), None),
                QueryCore::Values,
                reads(table("c"), None),
                QueryCore::Rows { from: None },
            ]),
        },
    };
    assert_eq!(
        parse_select(
            "SELECT x FROM a UNION SELECT x FROM b UNION ALL VALUES (1) \
             INTERSECT SELECT x FROM c EXCEPT SELECT 2"
        ),
        Ok(expected)
    );
}

#[test]
fn parse_select_reads_only_the_first_command() {
    assert_eq!(
        parse_select("SELECT * FROM a; SELECT * FROM b;"),
        Ok(alone(reads(table("a"), None)))
    );
}

#[test]
fn parse_select_of_explain_is_unsupported() {
    assert_eq!(parse_select("EXPLAIN SELECT * FROM a"), Err(ExtractError::UnsupportedStatement));
}

#[test]
fn parse_select_of_explain_query_plan_is_unsupported() {
    assert_eq!(
        parse_select("EXPLAIN QUERY PLAN SELECT * FROM a"),
        Err(ExtractError::UnsupportedStatement)
    );
}

#[test]
fn parse_select_of_other_statements_is_unsupported() {
    for sql in [
        "INSERT INTO a VALUES (1)",
        "UPDATE a SET x = 1",
        "DELETE FROM a",
        "CREATE TABLE a (x INTEGER)",
        "DROP TABLE a",
    ] {
        assert_eq!(parse_select(sql), Err(ExtractError::UnsupportedStatement));
    }
}

#[test]
fn parse_select_of_no_command() {
    assert_eq!(parse_select(""), Err(ExtractError::NoStatement));
    assert_eq!(parse_select("   \n"), Err(ExtractError::NoStatement));
    assert_eq!(parse_select("-- only a comment"), Err(ExtractError::NoStatement));
}

#[test]
fn parse_select_of_malformed_text() {
    assert_eq!(parse_select("SELECT FROM WHERE"), Err(ExtractError::ParseFailure));
    assert_eq!(parse_select("SELECT * FROM 'unterminated"), Err(ExtractError::ParseFailure));
    assert_eq!(parse_select("not sql at all"), Err(ExtractError::ParseFailure));
}

#[test]
fn table_names_of_unsupported_or_unreadable_text_are_empty() {
    for sql in ["", "EXPLAIN SELECT * FROM a", "DELETE FROM a", "SELECT FROM WHERE"] {
        assert_eq!(names_of(sql), Vec::<String>::new());
    }
}

#[test]
fn table_names_come_in_the_order_of_first_occurrence() {
    assert_eq!(
        names_of(
            "SELECT * FROM c JOIN a JOIN (SELECT * FROM b JOIN c) UNION SELECT * FROM d.a"
        ),
        vec!["c".to_string(), "a".to_string(), "b".to_string(), "d\u{1f}a".to_string()]
    );
}

#[test]
fn table_names_of_a_self_join_hold_the_table_once() {
    assert_eq!(
        names_of(
            "SELECT * FROM employees e JOIN employees m ON e.boss = m.id"
        ),
        vec!["employees".to_string()]
    );
}

#[test]
fn table_names_of_values_only_are_empty() {
    assert_eq!(names_of("VALUES (1), (2)"), Vec::<String>::new());
}

#[test]
fn table_names_are_the_same_on_every_call() {
    let sql = "SELECT * FROM a JOIN b UNION SELECT * FROM b JOIN c";
    assert_eq!(names_of(sql), names_of(sql));
}

#[test]
fn table_names_differ_by_case() {
    assert_eq!(
        names_of("SELECT * FROM Hats JOIN hats"),
        vec!["Hats".to_string(), "hats".to_string()]
    );
}

#[test]
fn parse_select_skips_empty_commands_before_the_first() {
    assert_eq!(parse_select(";"), Err(ExtractError::NoStatement));
    assert_eq!(parse_select(";;SELECT * FROM a"), Ok(alone(reads(table("a"), None))));
}

#[test]
fn parse_select_rejects_nesting_beyond_the_parser_stack() {
    let depth = 1000;
    let groups = format!("SELECT * FROM {}a{}", "(".repeat(depth), ")".repeat(depth));
    assert_eq!(parse_select(&groups), Err(ExtractError::ParseFailure));
    let subqueries =
        format!("{}SELECT * FROM a{}", "SELECT * FROM (".repeat(depth), ")".repeat(depth));
    assert_eq!(parse_select(&subqueries), Err(ExtractError::ParseFailure));
    assert_eq!(names_of(&subqueries), Vec::<String>::new());
}

#[test]
fn table_names_under_ten_levels_of_subqueries() {
    let depth = 10;
    let sql = format!("{}SELECT * FROM a{}", "SELECT * FROM (".repeat(depth), ")".repeat(depth));
    assert_eq!(names_of(&sql), vec!["a".to_string()]);
}

#[test]
fn table_names_of_a_long_compound_select() {
    let sql = format!("SELECT * FROM a{}", " UNION SELECT * FROM b".repeat(5000));
    assert_eq!(names_of(&sql), vec!["a".to_string(), "b".to_string()]);
}

#[test]
fn table_names_keep_identifiers_as_written() {
    assert_eq!(
        names_of(
            "SELECT * FROM tëst JOIN \"q ü\" JOIN [br k] JOIN `hats` JOIN 'str'"
        ),
        vec![
            "tëst".to_string(),
            "\"q ü\"".to_string(),
            "[br k]".to_string(),
            "`hats`".to_string(),
            "'str'".to_string(),
        ]
    );
}

#[test]
fn table_names_come_from_from_and_join_positions_only() {
    assert_eq!(
        names_of(
            "WITH x AS (SELECT * FROM inside_with) \
             SELECT (SELECT 1 FROM in_column) FROM x WHERE y IN (SELECT y FROM in_where)"
        ),
        vec!["x".to_string()]
    );
}

#[test]
fn table_named_by_a_keyword_comes_in_upper_case() {
    assert_eq!(names_of("SELECT * FROM abort JOIN Abort"), vec!["ABORT".to_string()]);
}

#[test]
fn rebuild_select_of_a_select_inside_another_statement() {
    let parsed = Parser::new("INSERT INTO target SELECT * FROM a JOIN b".as_bytes()).next();
    let rebuilt = match &parsed {
        Ok(Some(Cmd::Stmt(Stmt::Insert { body, .. }))) => match body {
            sqlite3_parser::ast::InsertBody::Select(select, _) => Some(rebuild_select(select)),
            _ => None,
        },
        _ => None,
    };
    assert_eq!(rebuilt, Some(alone(reads(table("a"), Some(vec![table("b")])))));
    assert_eq!(parse_sql_command_for_table_names(&parsed), Vec::<String>::new());
}
