//! Expressions over the text-search types and the operators between them.
//!
//! An expression is a value that knows its SQL type and its SQL text. The
//! operators build new expressions from old ones and never look at data; which
//! operands an operator takes is settled by the types.

use crate::configuration::{sql_literal, TsConfigurationByName};
use crate::types::{Bool, RegConfig, TsQuery, TsVector};
use std::marker::PhantomData;
use vstd::prelude::*;
use vstd::string::StringExecFns;

verus! {

/// A fragment of a query that yields a value of one SQL type.
pub trait Expression {
    /// The SQL type of the value.
    type SqlType;

    /// The SQL text of the fragment.
    spec fn sql(&self) -> Seq<char>;

    /// Appends the SQL text of the fragment to `out`.
    fn walk_ast(&self, out: &mut String)
        ensures
            final(out)@ == old(out)@ + self.sql(),
    ;
}

/// The operator `@@`, between a search vector and a search query, as it stands in SQL text.
pub const MATCHES_OPERATOR: &'static str = " @@ ";

/// The operator `||`, between two search vectors, as it stands in SQL text.
pub const CONCAT_OPERATOR: &'static str = " || ";

/// The operator `&&`, between two search queries, as it stands in SQL text.
pub const AND_OPERATOR: &'static str = " && ";

/// The operator `||`, between two search queries, as it stands in SQL text.
pub const OR_OPERATOR: &'static str = " || ";

/// The operator `@>`, between two search queries, as it stands in SQL text.
pub const CONTAINS_OPERATOR: &'static str = " @> ";

/// The operator `<@`, between two search queries, as it stands in SQL text.
pub const CONTAINED_BY_OPERATOR: &'static str = " <@ ";

/// The SQL text of an infix operator between two operands.
pub open spec fn infix_sql(left: Seq<char>, operator: Seq<char>, right: Seq<char>) -> Seq<char> {
    left + operator + right
}

/// The SQL text of an expression in parentheses.
pub open spec fn grouped_sql(inner: Seq<char>) -> Seq<char> {
    "("@ + inner + ")"@
}

/// SQL text taken as it is, with the SQL type `T` that the caller gives it.
pub struct SqlLiteral<T> {
    pub sql: String,
    pub sql_type: PhantomData<T>,
}

impl<T> SqlLiteral<T> {
    /// The expression of type `T` whose text is `sql`.
    pub fn new(sql: String) -> (r: Self)
        ensures
            r.sql@ == sql@,
            r.sql() == sql@,
    {
        SqlLiteral { sql, sql_type: PhantomData }
    }
}

impl<T> Expression for SqlLiteral<T> {
    type SqlType = T;

    open spec fn sql(&self) -> Seq<char> {
        self.sql@
    }

    fn walk_ast(&self, out: &mut String) {
        out.append(self.sql.as_str());
    }
}

impl Expression for TsConfigurationByName {
    type SqlType = RegConfig;

    open spec fn sql(&self) -> Seq<char> {
        sql_literal(self.0@)
    }

    fn walk_ast(&self, out: &mut String) {
        TsConfigurationByName::walk_ast(self, out);
    }
}

/// An expression in parentheses, so that what stands around it cannot take
/// its operands apart.
pub struct Grouped<T> {
    pub inner: T,
}

impl<T: Expression> Expression for Grouped<T> {
    type SqlType = T::SqlType;

    open spec fn sql(&self) -> Seq<char> {
        grouped_sql(self.inner.sql())
    }

    fn walk_ast(&self, out: &mut String) {
        out.append("(");
        self.inner.walk_ast(out);
        out.append(")");
        assert(out@ =~= old(out)@ + self.sql());
    }
}

/// `left @@ right`: whether a search vector and a search query match.
pub struct Matches<L, R> {
    pub left: L,
    pub right: R,
}

impl<L: Expression, R: Expression> Expression for Matches<L, R> {
    type SqlType = Bool;

    open spec fn sql(&self) -> Seq<char> {
        infix_sql(self.left.sql(), " @@ "@, self.right.sql())
    }

    fn walk_ast(&self, out: &mut String) {
        self.left.walk_ast(out);
        out.append(MATCHES_OPERATOR);
        self.right.walk_ast(out);
        assert(out@ =~= old(out)@ + self.sql());
    }
}

/// `left || right` on search vectors: the vector that holds the lexemes of both.
pub struct Concat<L, R> {
    pub left: L,
    pub right: R,
}

impl<L: Expression, R: Expression> Expression for Concat<L, R> {
    type SqlType = TsVector;

    open spec fn sql(&self) -> Seq<char> {
        infix_sql(self.left.sql(), " || "@, self.right.sql())
    }

    fn walk_ast(&self, out: &mut String) {
        self.left.walk_ast(out);
        out.append(CONCAT_OPERATOR);
        self.right.walk_ast(out);
        assert(out@ =~= old(out)@ + self.sql());
    }
}

/// `left && right`: the query that both queries must satisfy.
pub struct And<L, R> {
    pub left: L,
    pub right: R,
}

impl<L: Expression, R: Expression> Expression for And<L, R> {
    type SqlType = TsQuery;

    open spec fn sql(&self) -> Seq<char> {
        infix_sql(self.left.sql(), " && "@, self.right.sql())
    }

    fn walk_ast(&self, out: &mut String) {
        self.left.walk_ast(out);
        out.append(AND_OPERATOR);
        self.right.walk_ast(out);
        assert(out@ =~= old(out)@ + self.sql());
    }
}

/// `left || right` on search queries: the query that either query satisfies.
pub struct Or<L, R> {
    pub left: L,
    pub right: R,
}

impl<L: Expression, R: Expression> Expression for Or<L, R> {
    type SqlType = TsQuery;

    open spec fn sql(&self) -> Seq<char> {
        infix_sql(self.left.sql(), " || "@, self.right.sql())
    }

    fn walk_ast(&self, out: &mut String) {
        self.left.walk_ast(out);
        out.append(OR_OPERATOR);
        self.right.walk_ast(out);
        assert(out@ =~= old(out)@ + self.sql());
    }
}

/// `left @> right`: whether the left query contains the right one.
pub struct Contains<L, R> {
    pub left: L,
    pub right: R,
}

impl<L: Expression, R: Expression> Expression for Contains<L, R> {
    type SqlType = Bool;

    open spec fn sql(&self) -> Seq<char> {
        infix_sql(self.left.sql(), " @> "@, self.right.sql())
    }

    fn walk_ast(&self, out: &mut String) {
        self.left.walk_ast(out);
        out.append(CONTAINS_OPERATOR);
        self.right.walk_ast(out);
        assert(out@ =~= old(out)@ + self.sql());
    }
}

/// `left <@ right`: whether the left query is contained in the right one.
pub struct ContainedBy<L, R> {
    pub left: L,
    pub right: R,
}

impl<L: Expression, R: Expression> Expression for ContainedBy<L, R> {
    type SqlType = Bool;

    open spec fn sql(&self) -> Seq<char> {
        infix_sql(self.left.sql(), " <@ "@, self.right.sql())
    }

    fn walk_ast(&self, out: &mut String) {
        self.left.walk_ast(out);
        out.append(CONTAINED_BY_OPERATOR);
        self.right.walk_ast(out);
        assert(out@ =~= old(out)@ + self.sql());
    }
}

/// The operators that a search-vector expression takes on its left.
pub trait TsVectorExtensions: Expression<SqlType = TsVector> + Sized {
    /// `self @@ other`, a truth value, without parentheses.
    fn matches<T: Expression<SqlType = TsQuery>>(self, other: T) -> (r: Matches<Self, T>)
        ensures
            r == (Matches { left: self, right: other }),
            r.sql() == infix_sql(self.sql(), " @@ "@, other.sql()),
    {
        Matches { left: self, right: other }
    }

    /// `(self || other)`, a search vector. The parentheses are always
    /// written: `||` is also the `or` of search queries and the
    /// concatenation of text, and binds unlike its neighbours.
    fn concat<T: Expression<SqlType = TsVector>>(self, other: T) -> (r: Grouped<Concat<Self, T>>)
        ensures
            r == (Grouped { inner: Concat { left: self, right: other } }),
            r.sql() == grouped_sql(infix_sql(self.sql(), " || "@, other.sql())),
    {
        Grouped { inner: Concat { left: self, right: other } }
    }
}

/// The operators that a search-query expression takes on its left.
pub trait TsQueryExtensions: Expression<SqlType = TsQuery> + Sized {
    /// `self @@ other`, a truth value, without parentheses.
    fn matches<T: Expression<SqlType = TsVector>>(self, other: T) -> (r: Matches<Self, T>)
        ensures
            r == (Matches { left: self, right: other }),
            r.sql() == infix_sql(self.sql(), " @@ "@, other.sql()),
    {
        Matches { left: self, right: other }
    }

    /// `self && other`, a search query, without parentheses.
    fn and<T: Expression<SqlType = TsQuery>>(self, other: T) -> (r: And<Self, T>)
        ensures
            r == (And { left: self, right: other }),
            r.sql() == infix_sql(self.sql(), " && "@, other.sql()),
    {
        And { left: self, right: other }
    }

    /// `self || other`, a search query, without parentheses.
    fn or<T: Expression<SqlType = TsQuery>>(self, other: T) -> (r: Or<Self, T>)
        ensures
            r == (Or { left: self, right: other }),
            r.sql() == infix_sql(self.sql(), " || "@, other.sql()),
    {
        Or { left: self, right: other }
    }

    /// `self @> other`, a truth value, without parentheses.
    fn contains<T: Expression<SqlType = TsQuery>>(self, other: T) -> (r: Contains<Self, T>)
        ensures
            r == (Contains { left: self, right: other }),
            r.sql() == infix_sql(self.sql(), " @> "@, other.sql()),
    {
        Contains { left: self, right: other }
    }

    /// `self <@ other`, a truth value, without parentheses.
    fn contained_by<T: Expression<SqlType = TsQuery>>(self, other: T) -> (r: ContainedBy<Self, T>)
        ensures
            r == (ContainedBy { left: self, right: other }),
            r.sql() == infix_sql(self.sql(), " <@ "@, other.sql()),
    {
        ContainedBy { left: self, right: other }
    }
}

impl<T: Expression<SqlType = TsVector>> TsVectorExtensions for T {
}

impl<T: Expression<SqlType = TsQuery>> TsQueryExtensions for T {
}

/// The SQL text of an expression, as a string of its own.
pub fn to_sql_text<E: Expression>(expression: &E) -> (text: String)
    ensures
        text@ == expression.sql(),
{
    let mut text = String::new();
    expression.walk_ast(&mut text);
    assert(text@ =~= expression.sql());
    text
}

} // verus!
