use rust_sql_parser::ast::{JoinClause, QualifiedName, Query, QueryBody, QueryCore, Source};
use rust_sql_parser::names::{add_unique_string, extract_table_name_strings, SEPARATOR};
use rust_sql_parser::{parsed_table_names, query_table_names, ExtractError};

fn bare(table: &str) -> QualifiedName {
    QualifiedName { schema: None, name: table.to_string() }
}

fn under(schema: &str, table: &str) -> QualifiedName {
    QualifiedName { schema: Some(schema.to_string()), name: table.to_string() }
}

fn reading(tables: Vec<QualifiedName>) -> Query {
    let joins = tables.into_iter().map(Source::Table).collect();
    Query {
        body: QueryBody {
            select: QueryCore::Rows { from: Some(JoinClause { select: None, joins: Some(joins) }) },
            compounds: None,
        },
    }
}

#[test]
fn separator_is_the_unit_separator() {
    assert_eq!(SEPARATOR, '\u{1f}');
}

#[test]
fn table_string_of_a_bare_name_is_the_name() {
    assert_eq!(bare("bananas").table_string(), "bananas");
}

#[test]
fn table_string_of_a_qualified_name_joins_with_the_separator() {
    assert_eq!(under("apples", "bananas").table_string(), "apples\u{1f}bananas");
    assert_eq!(under("apples", "bananas").table_string().len(), 14);
}

#[test]
fn table_string_keeps_an_empty_schema_visible() {
    assert_eq!(under("", "t").table_string(), "\u{1f}t");
    assert_ne!(under("", "t").table_string(), bare("t").table_string());
}

#[test]
fn table_string_keeps_quoting_characters() {
    assert_eq!(bare("`hats`").table_string(), "`hats`");
    assert_eq!(under("\"main\"", "[t]").table_string(), "\"main\"\u{1f}[t]");
}

#[test]
fn add_unique_string_appends_or_skips() {
    let mut strings = vec!["a".to_string()];
    add_unique_string(&mut strings, "b".to_string());
    add_unique_string(&mut strings, "a".to_string());
    add_unique_string(&mut strings, "".to_string());
    add_unique_string(&mut strings, "".to_string());
    assert_eq!(strings, vec!["a".to_string(), "b".to_string(), "".to_string()]);
}

#[test]
fn name_strings_of_nothing_is_empty() {
    assert_eq!(extract_table_name_strings(&[]), Vec::<String>::new());
}

#[test]
fn name_strings_follow_the_order_of_the_names() {
    let names = vec![bare("Movies"), under("db", "Rooms"), bare("a")];
    assert_eq!(
        extract_table_name_strings(&names),
        vec!["Movies".to_string(), "db\u{1f}Rooms".to_string(), "a".to_string()]
    );
}

#[test]
fn name_strings_keep_one_of_equal_strings() {
    let names = vec![under("a", "b"), bare("a\u{1f}b"), bare("c"), bare("c")];
    assert_eq!(
        extract_table_name_strings(&names),
        vec!["a\u{1f}b".to_string(), "c".to_string()]
    );
}

#[test]
fn query_table_names_gives_one_string_for_each_table() {
    let query = reading(vec![bare("a"), under("s", "a"), bare("a"), bare("b")]);
    assert_eq!(
        query_table_names(&query),
        vec!["a".to_string(), "s\u{1f}a".to_string(), "b".to_string()]
    );
}

#[test]
fn parsed_table_names_of_a_query_are_its_names() {
    let parsed = Ok(reading(vec![bare("x")]));
    assert_eq!(parsed_table_names(&parsed), vec!["x".to_string()]);
}

#[test]
fn parsed_table_names_of_any_error_is_empty() {
    for error in [
        ExtractError::UnsupportedStatement,
        ExtractError::NoStatement,
        ExtractError::ParseFailure,
    ] {
        assert_eq!(parsed_table_names(&Err(error)), Vec::<String>::new());
    }
}
