//! The server's text-search functions as typed expressions.
//!
//! Each binding takes expressions of the SQL types that the function takes and
//! gives an expression of the SQL type that it returns. A function that the
//! server overloads under one name has one binding for each of its forms, all
//! with that name in the SQL text: which form is meant is settled by the types
//! of the arguments.

use crate::dsl::Expression;
use crate::types::{
    Array, CChar, Float, Integer, RegConfig, Text, TextOrNullableText, TsQuery, TsVector,
};
use std::marker::PhantomData;
use vstd::prelude::*;
use vstd::string::StringExecFns;

verus! {

/// The SQL text of a call with one argument.
pub open spec fn call1_sql(name: Seq<char>, first: Seq<char>) -> Seq<char> {
    name + "("@ + first + ")"@
}

/// The SQL text of a call with two arguments.
pub open spec fn call2_sql(name: Seq<char>, first: Seq<char>, second: Seq<char>) -> Seq<char> {
    name + "("@ + first + ", "@ + second + ")"@
}

/// The SQL text of a call with three arguments.
pub open spec fn call3_sql(
    name: Seq<char>,
    first: Seq<char>,
    second: Seq<char>,
    third: Seq<char>,
) -> Seq<char> {
    name + "("@ + first + ", "@ + second + ", "@ + third + ")"@
}

/// The SQL text of a call with four arguments.
pub open spec fn call4_sql(
    name: Seq<char>,
    first: Seq<char>,
    second: Seq<char>,
    third: Seq<char>,
    fourth: Seq<char>,
) -> Seq<char> {
    name + "("@ + first + ", "@ + second + ", "@ + third + ", "@ + fourth + ")"@
}

/// A call of the SQL function `name` with one argument, which returns a
/// value of SQL type `R`.
pub struct Call1<R, A> {
    pub name: &'static str,
    pub first: A,
    pub sql_type: PhantomData<R>,
}

impl<R, A: Expression> Expression for Call1<R, A> {
    type SqlType = R;

    open spec fn sql(&self) -> Seq<char> {
        call1_sql(self.name@, self.first.sql())
    }

    fn walk_ast(&self, out: &mut String) {
        out.append(self.name);
        out.append("(");
        self.first.walk_ast(out);
        out.append(")");
        assert(out@ =~= old(out)@ + self.sql());
    }
}

/// A call of the SQL function `name` with two arguments, which returns a
/// value of SQL type `R`.
pub struct Call2<R, A, B> {
    pub name: &'static str,
    pub first: A,
    pub second: B,
    pub sql_type: PhantomData<R>,
}

impl<R, A: Expression, B: Expression> Expression for Call2<R, A, B> {
    type SqlType = R;

    open spec fn sql(&self) -> Seq<char> {
        call2_sql(self.name@, self.first.sql(), self.second.sql())
    }

    fn walk_ast(&self, out: &mut String) {
        out.append(self.name);
        out.append("(");
        self.first.walk_ast(out);
        out.append(", ");
        self.second.walk_ast(out);
        out.append(")");
        assert(out@ =~= old(out)@ + self.sql());
    }
}

/// A call of the SQL function `name` with three arguments, which returns a
/// value of SQL type `R`.
pub struct Call3<R, A, B, C> {
    pub name: &'static str,
    pub first: A,
    pub second: B,
    pub third: C,
    pub sql_type: PhantomData<R>,
}

impl<R, A: Expression, B: Expression, C: Expression> Expression for Call3<R, A, B, C> {
    type SqlType = R;

    open spec fn sql(&self) -> Seq<char> {
        call3_sql(self.name@, self.first.sql(), self.second.sql(), self.third.sql())
    }

    fn walk_ast(&self, out: &mut String) {
        out.append(self.name);
        out.append("(");
        self.first.walk_ast(out);
        out.append(", ");
        self.second.walk_ast(out);
        out.append(", ");
        self.third.walk_ast(out);
        out.append(")");
        assert(out@ =~= old(out)@ + self.sql());
    }
}

/// A call of the SQL function `name` with four arguments, which returns a
/// value of SQL type `R`.
pub struct Call4<R, A, B, C, D> {
    pub name: &'static str,
    pub first: A,
    pub second: B,
    pub third: C,
    pub fourth: D,
    pub sql_type: PhantomData<R>,
}

impl<R, A: Expression, B: Expression, C: Expression, D: Expression> Expression for Call4<
    R,
    A,
    B,
    C,
    D,
> {
    type SqlType = R;

    open spec fn sql(&self) -> Seq<char> {
        call4_sql(
            self.name@,
            self.first.sql(),
            self.second.sql(),
            self.third.sql(),
            self.fourth.sql(),
        )
    }

    fn walk_ast(&self, out: &mut String) {
        out.append(self.name);
        out.append("(");
        self.first.walk_ast(out);
        out.append(", ");
        self.second.walk_ast(out);
        out.append(", ");
        self.third.walk_ast(out);
        out.append(", ");
        self.fourth.walk_ast(out);
        out.append(")");
        assert(out@ =~= old(out)@ + self.sql());
    }
}

/// `length(x)`. The number of lexemes in a search vector.
pub fn length<A>(x: A) -> (r: Call1<Integer, A>)
    where
        A: Expression<SqlType = TsVector>,
    ensures
        r.name@ == "length"@,
        r.first == x,
        r.sql() == call1_sql("length"@, x.sql()),
{
    Call1 { name: "length", first: x, sql_type: PhantomData }
}

/// `numnode(x)`. The number of lexemes and operators in a search query.
pub fn numnode<A>(x: A) -> (r: Call1<Integer, A>)
    where
        A: Expression<SqlType = TsQuery>,
    ensures
        r.name@ == "numnode"@,
        r.first == x,
        r.sql() == call1_sql("numnode"@, x.sql()),
{
    Call1 { name: "numnode", first: x, sql_type: PhantomData }
}

/// `plainto_tsquery(x)`. The search query for plain text, with the default
/// configuration.
pub fn plainto_tsquery<A>(x: A) -> (r: Call1<TsQuery, A>)
    where
        A: Expression<SqlType = Text>,
    ensures
        r.name@ == "plainto_tsquery"@,
        r.first == x,
        r.sql() == call1_sql("plainto_tsquery"@, x.sql()),
{
    Call1 { name: "plainto_tsquery", first: x, sql_type: PhantomData }
}

/// `plainto_tsquery(config, querytext)`. The search query for plain text,
/// with the configuration given.
pub fn plainto_tsquery_with_search_config<A, B>(
    config: A,
    querytext: B,
) -> (r: Call2<TsQuery, A, B>)
    where
        A: Expression<SqlType = RegConfig>,
        B: Expression<SqlType = Text>,
    ensures
        r.name@ == "plainto_tsquery"@,
        r.first == config,
        r.second == querytext,
        r.sql() == call2_sql("plainto_tsquery"@, config.sql(), querytext.sql()),
{
    Call2 { name: "plainto_tsquery", first: config, second: querytext, sql_type: PhantomData }
}

/// `querytree(x)`. The part of a search query that an index can use, as
/// text.
pub fn querytree<A>(x: A) -> (r: Call1<Text, A>)
    where
        A: Expression<SqlType = TsQuery>,
    ensures
        r.name@ == "querytree"@,
        r.first == x,
        r.sql() == call1_sql("querytree"@, x.sql()),
{
    Call1 { name: "querytree", first: x, sql_type: PhantomData }
}

/// `strip(x)`. A search vector without its positions and weights.
pub fn strip<A>(x: A) -> (r: Call1<TsVector, A>)
    where
        A: Expression<SqlType = TsVector>,
    ensures
        r.name@ == "strip"@,
        r.first == x,
        r.sql() == call1_sql("strip"@, x.sql()),
{
    Call1 { name: "strip", first: x, sql_type: PhantomData }
}

/// `to_tsquery(x)`. The search query that a text in query syntax spells,
/// with the default configuration.
pub fn to_tsquery<A>(x: A) -> (r: Call1<TsQuery, A>)
    where
        A: Expression<SqlType = Text>,
    ensures
        r.name@ == "to_tsquery"@,
        r.first == x,
        r.sql() == call1_sql("to_tsquery"@, x.sql()),
{
    Call1 { name: "to_tsquery", first: x, sql_type: PhantomData }
}

/// `to_tsquery(config, querytext)`. The search query that a text in query
/// syntax spells, with the configuration given.
pub fn to_tsquery_with_search_config<A, B>(config: A, querytext: B) -> (r: Call2<TsQuery, A, B>)
    where
        A: Expression<SqlType = RegConfig>,
        B: Expression<SqlType = Text>,
    ensures
        r.name@ == "to_tsquery"@,
        r.first == config,
        r.second == querytext,
        r.sql() == call2_sql("to_tsquery"@, config.sql(), querytext.sql()),
{
    Call2 { name: "to_tsquery", first: config, second: querytext, sql_type: PhantomData }
}

/// `to_tsvector(x)`. The search vector of a document, with the default
/// configuration. The document is text or nullable text.
pub fn to_tsvector<A>(x: A) -> (r: Call1<TsVector, A>)
    where
        A: Expression,
        A::SqlType: TextOrNullableText,
    ensures
        r.name@ == "to_tsvector"@,
        r.first == x,
        r.sql() == call1_sql("to_tsvector"@, x.sql()),
{
    Call1 { name: "to_tsvector", first: x, sql_type: PhantomData }
}

/// `to_tsvector(config, document_content)`. The search vector of a
/// document, with the configuration given. The document is text or nullable
/// text.
pub fn to_tsvector_with_search_config<A, B>(
    config: A,
    document_content: B,
) -> (r: Call2<TsVector, A, B>)
    where
        A: Expression<SqlType = RegConfig>,
        B: Expression,
        B::SqlType: TextOrNullableText,
    ensures
        r.name@ == "to_tsvector"@,
        r.first == config,
        r.second == document_content,
        r.sql() == call2_sql("to_tsvector"@, config.sql(), document_content.sql()),
{
    Call2 { name: "to_tsvector", first: config, second: document_content, sql_type: PhantomData }
}

/// `ts_headline(x, y)`. The document with the matches of a query marked,
/// with the default configuration.
pub fn ts_headline<A, B>(x: A, y: B) -> (r: Call2<Text, A, B>)
    where
        A: Expression<SqlType = Text>,
        B: Expression<SqlType = TsQuery>,
    ensures
        r.name@ == "ts_headline"@,
        r.first == x,
        r.second == y,
        r.sql() == call2_sql("ts_headline"@, x.sql(), y.sql()),
{
    Call2 { name: "ts_headline", first: x, second: y, sql_type: PhantomData }
}

/// `ts_headline(config, x, y)`. The document with the matches of a query
/// marked, with the configuration given.
pub fn ts_headline_with_search_config<A, B, C>(config: A, x: B, y: C) -> (r: Call3<Text, A, B, C>)
    where
        A: Expression<SqlType = RegConfig>,
        B: Expression<SqlType = Text>,
        C: Expression<SqlType = TsQuery>,
    ensures
        r.name@ == "ts_headline"@,
        r.first == config,
        r.second == x,
        r.third == y,
        r.sql() == call3_sql("ts_headline"@, config.sql(), x.sql(), y.sql()),
{
    Call3 { name: "ts_headline", first: config, second: x, third: y, sql_type: PhantomData }
}

/// `ts_rank(x, y)`. How well a search vector matches a query, by the
/// frequency of the matching lexemes.
pub fn ts_rank<A, B>(x: A, y: B) -> (r: Call2<Float, A, B>)
    where
        A: Expression<SqlType = TsVector>,
        B: Expression<SqlType = TsQuery>,
    ensures
        r.name@ == "ts_rank"@,
        r.first == x,
        r.second == y,
        r.sql() == call2_sql("ts_rank"@, x.sql(), y.sql()),
{
    Call2 { name: "ts_rank", first: x, second: y, sql_type: PhantomData }
}

/// `ts_rank_cd(x, y)`. How well a search vector matches a query, by cover
/// density.
pub fn ts_rank_cd<A, B>(x: A, y: B) -> (r: Call2<Float, A, B>)
    where
        A: Expression<SqlType = TsVector>,
        B: Expression<SqlType = TsQuery>,
    ensures
        r.name@ == "ts_rank_cd"@,
        r.first == x,
        r.second == y,
        r.sql() == call2_sql("ts_rank_cd"@, x.sql(), y.sql()),
{
    Call2 { name: "ts_rank_cd", first: x, second: y, sql_type: PhantomData }
}

/// `ts_rank_cd(w, x, y)`. Cover-density rank with a weight for each of the
/// four classes of lexemes.
pub fn ts_rank_cd_weighted<A, B, C>(w: A, x: B, y: C) -> (r: Call3<Float, A, B, C>)
    where
        A: Expression<SqlType = Array<Float>>,
        B: Expression<SqlType = TsVector>,
        C: Expression<SqlType = TsQuery>,
    ensures
        r.name@ == "ts_rank_cd"@,
        r.first == w,
        r.second == x,
        r.third == y,
        r.sql() == call3_sql("ts_rank_cd"@, w.sql(), x.sql(), y.sql()),
{
    Call3 { name: "ts_rank_cd", first: w, second: x, third: y, sql_type: PhantomData }
}

/// `ts_rank_cd(x, y, n)`. Cover-density rank, normalized as the flags in
/// `n` say.
pub fn ts_rank_cd_normalized<A, B, C>(x: A, y: B, n: C) -> (r: Call3<Float, A, B, C>)
    where
        A: Expression<SqlType = TsVector>,
        B: Expression<SqlType = TsQuery>,
        C: Expression<SqlType = Integer>,
    ensures
        r.name@ == "ts_rank_cd"@,
        r.first == x,
        r.second == y,
        r.third == n,
        r.sql() == call3_sql("ts_rank_cd"@, x.sql(), y.sql(), n.sql()),
{
    Call3 { name: "ts_rank_cd", first: x, second: y, third: n, sql_type: PhantomData }
}

/// `ts_rank_cd(w, x, y, n)`. Cover-density rank with weights, normalized as
/// the flags in `n` say.
pub fn ts_rank_cd_weighted_normalized<A, B, C, D>(
    w: A,
    x: B,
    y: C,
    n: D,
) -> (r: Call4<Float, A, B, C, D>)
    where
        A: Expression<SqlType = Array<Float>>,
        B: Expression<SqlType = TsVector>,
        C: Expression<SqlType = TsQuery>,
        D: Expression<SqlType = Integer>,
    ensures
        r.name@ == "ts_rank_cd"@,
        r.first == w,
        r.second == x,
        r.third == y,
        r.fourth == n,
        r.sql() == call4_sql("ts_rank_cd"@, w.sql(), x.sql(), y.sql(), n.sql()),
{
    Call4 { name: "ts_rank_cd", first: w, second: x, third: y, fourth: n, sql_type: PhantomData }
}

/// `phraseto_tsquery(x)`. The search query for a phrase: the words of the
/// text, each followed by the next.
pub fn phraseto_tsquery<A>(x: A) -> (r: Call1<TsQuery, A>)
    where
        A: Expression<SqlType = Text>,
    ensures
        r.name@ == "phraseto_tsquery"@,
        r.first == x,
        r.sql() == call1_sql("phraseto_tsquery"@, x.sql()),
{
    Call1 { name: "phraseto_tsquery", first: x, sql_type: PhantomData }
}

/// `websearch_to_tsquery(x)`. The search query for text in the syntax of
/// web search engines, with the default configuration.
pub fn websearch_to_tsquery<A>(x: A) -> (r: Call1<TsQuery, A>)
    where
        A: Expression<SqlType = Text>,
    ensures
        r.name@ == "websearch_to_tsquery"@,
        r.first == x,
        r.sql() == call1_sql("websearch_to_tsquery"@, x.sql()),
{
    Call1 { name: "websearch_to_tsquery", first: x, sql_type: PhantomData }
}

/// `websearch_to_tsquery(config, x)`. The search query for text in the
/// syntax of web search engines, with the configuration given.
pub fn websearch_to_tsquery_with_search_config<A, B>(config: A, x: B) -> (r: Call2<TsQuery, A, B>)
    where
        A: Expression<SqlType = RegConfig>,
        B: Expression<SqlType = Text>,
    ensures
        r.name@ == "websearch_to_tsquery"@,
        r.first == config,
        r.second == x,
        r.sql() == call2_sql("websearch_to_tsquery"@, config.sql(), x.sql()),
{
    Call2 { name: "websearch_to_tsquery", first: config, second: x, sql_type: PhantomData }
}

/// `setweight(x, w)`. A search vector with the weight `w` on each of its
/// positions.
pub fn setweight<A, B>(x: A, w: B) -> (r: Call2<TsVector, A, B>)
    where
        A: Expression<SqlType = TsVector>,
        B: Expression<SqlType = CChar>,
    ensures
        r.name@ == "setweight"@,
        r.first == x,
        r.second == w,
        r.sql() == call2_sql("setweight"@, x.sql(), w.sql()),
{
    Call2 { name: "setweight", first: x, second: w, sql_type: PhantomData }
}

} // verus!
