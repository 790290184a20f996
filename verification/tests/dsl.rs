use diesel_full_text_search::dsl::{
    AND_OPERATOR, CONCAT_OPERATOR, CONTAINED_BY_OPERATOR, CONTAINS_OPERATOR, MATCHES_OPERATOR,
    OR_OPERATOR,
};
use diesel_full_text_search::{
    to_sql_text, Bool, Expression, SqlLiteral, TsConfigurationByName, TsQuery, TsQueryExtensions,
    TsVector, TsVectorExtensions, Tsvector,
};

fn vector(sql: &str) -> SqlLiteral<TsVector> {
    SqlLiteral::new(sql.to_owned())
}

fn query(sql: &str) -> SqlLiteral<TsQuery> {
    SqlLiteral::new(sql.to_owned())
}

fn truth<E: Expression<SqlType = Bool>>(expression: E) -> String {
    to_sql_text(&expression)
}

fn a_vector<E: Expression<SqlType = TsVector>>(expression: E) -> String {
    to_sql_text(&expression)
}

fn a_query<E: Expression<SqlType = TsQuery>>(expression: E) -> String {
    to_sql_text(&expression)
}

#[test]
fn literal_is_its_text() {
    assert_eq!(to_sql_text(&vector("body_tsv")), "body_tsv");
}

#[test]
fn vector_matches_query() {
    assert_eq!(truth(vector("v").matches(query("q"))), "v @@ q");
}

#[test]
fn query_matches_vector() {
    assert_eq!(truth(query("q").matches(vector("v"))), "q @@ v");
}

#[test]
fn concat_is_grouped() {
    assert_eq!(a_vector(vector("a").concat(vector("b"))), "(a || b)");
}

#[test]
fn query_operators() {
    assert_eq!(a_query(query("a").and(query("b"))), "a && b");
    assert_eq!(a_query(query("a").or(query("b"))), "a || b");
    assert_eq!(truth(query("a").contains(query("b"))), "a @> b");
    assert_eq!(truth(query("a").contained_by(query("b"))), "a <@ b");
}

#[test]
fn operators_nest() {
    let both = vector("title_tsv").concat(vector("body_tsv"));
    let wanted = query("x").and(query("y")).or(query("z"));
    assert_eq!(
        truth(both.matches(wanted)),
        "(title_tsv || body_tsv) @@ x && y || z"
    );
    assert_eq!(
        a_vector(vector("a").concat(vector("b")).concat(vector("c"))),
        "((a || b) || c)"
    );
    assert_eq!(
        a_vector(vector("a").concat(vector("b").concat(vector("c")))),
        "(a || (b || c))"
    );
}

#[test]
fn text_is_appended() {
    let mut out = String::from("WHERE ");
    vector("v").matches(query("q")).walk_ast(&mut out);
    assert_eq!(out, "WHERE v @@ q");
}

#[test]
fn operands_are_kept() {
    let m = vector("v").matches(query("q"));
    assert_eq!(m.left.sql, "v");
    assert_eq!(m.right.sql, "q");
    let c = vector("a").concat(vector("b"));
    assert_eq!(c.inner.left.sql, "a");
    assert_eq!(c.inner.right.sql, "b");
}

#[test]
fn configuration_by_name_is_an_expression() {
    assert_eq!(to_sql_text(&TsConfigurationByName("english")), "'english'");
    assert_eq!(to_sql_text(&TsConfigurationByName("it's")), "'it''s'");
}

#[test]
fn operators_as_sql() {
    assert_eq!(MATCHES_OPERATOR, " @@ ");
    assert_eq!(CONCAT_OPERATOR, " || ");
    assert_eq!(AND_OPERATOR, " && ");
    assert_eq!(OR_OPERATOR, " || ");
    assert_eq!(CONTAINS_OPERATOR, " @> ");
    assert_eq!(CONTAINED_BY_OPERATOR, " <@ ");
}

#[test]
fn tsvector_has_two_spellings() {
    let v: SqlLiteral<Tsvector> = SqlLiteral::new("v".to_owned());
    assert_eq!(truth(v.matches(query("q"))), "v @@ q");
}
