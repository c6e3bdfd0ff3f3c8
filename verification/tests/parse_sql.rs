use std::collections::HashSet;

use fallible_iterator::FallibleIterator;
use rust_sql_parser::parse_sql_command_for_table_names;
use sqlite3_parser::lexer::sql::Parser;

fn table_names(sql_query: &str) -> HashSet<String> {
    let mut parser = Parser::new(sql_query.as_bytes());
    let cmd = parser.next();
    as_set(parse_sql_command_for_table_names(&cmd))
}

fn as_set(names: Vec<String>) -> HashSet<String> {
    let count = names.len();
    let set: HashSet<String> = names.into_iter().collect();
    assert_eq!(set.len(), count);
    set
}

#[test]
fn test_simple_sql() {
    let sql_query = "SELECT *\nFROM bananas\nWHERE color = 'red'";
    let mut expected = HashSet::new();
    expected.insert("bananas".to_string());
    assert_eq!(table_names(sql_query), expected);
}

#[test]
fn test_sql_join() {
    let sql_query = "Select m.title, r.id\n FROM Movies m\n INNER JOIN (\nSELECT rs.movie_id\n FROM Rooms r2 \n WHERE r2.seaats >= 50 \n ) AS r \n ON m.id = r.movide_id AND m.title != 'Batman';";
    let mut expected = HashSet::new();
    expected.insert("Movies".to_string());
    expected.insert("Rooms".to_string());
    assert_eq!(table_names(sql_query), expected);
}

#[test]
fn test_sql_union() {
    let sql_query = "SELECT *\nFROM a\nUNION\nSELECT *\nFROM b";
    let mut expected = HashSet::new();
    expected.insert("a".to_string());
    expected.insert("b".to_string());
    assert_eq!(table_names(sql_query), expected);
}

#[test]
fn test_sql_sub_query() {
    let sql_query = "SELECT a.color\nFROM (\nSELECT b.color\nFROM bananas b\n) z JOIN apples a\nON a.color = b.color";
    let mut expected = HashSet::new();
    expected.insert("apples".to_string());
    expected.insert("bananas".to_string());
    assert_eq!(table_names(sql_query), expected);
}

#[test]
fn test_sql_backticks() {
    let sql_query = "SELECT\n  *\nFROM\n  `hats` h\nWHERE\n  h.color == 'red'\nGROUP BY\n  h.color, h.material\nHAVING\n  COUNT(h.quantity) >= 200\nORDER BY\n  h.color DESC\nLIMIT\n  20\nOFFSET\n  10";
    let mut expected = HashSet::new();
    expected.insert("`hats`".to_string());
    assert_eq!(table_names(sql_query), expected);
}

#[test]
fn test_sql_db_name() {
    let sql_query = "SELECT *\nFROM apples.bananas\nWHERE color = 'red'";
    let mut expected = HashSet::new();
    expected.insert(format!("{}\x1F{}", "apples", "bananas").to_string());
    assert_eq!(table_names(sql_query), expected);
}
