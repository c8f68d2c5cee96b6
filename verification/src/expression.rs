//! Expression nodes.

use vstd::prelude::*;
use crate::ast_pass::AstPass;
use crate::decimal::decimal_of_int;
use crate::decimal::decimal_string_of_i64;
use crate::sql_types::SqlTypeTag;

verus! {

/// Structural plan identity.
///
/// An upstream plan cache keys prepared statements on a structural
/// fingerprint of the expression tree.  A node that answers `false` here
/// opts out of structural identity, which forces the cache never to
/// conflate two builds of the statement.
pub trait QueryId {
    /// Whether this node has a fingerprint determined by its structure
    /// alone.
    spec fn spec_has_static_query_id(&self) -> bool;

    /// Report whether this node has a structural fingerprint.
    fn has_static_query_id(&self) -> (r: bool)
        ensures
            r == self.spec_has_static_query_id(),
    ;
}

/// A leaf expression of the query builder: a named column or a bound host
/// value.  Every expression carries exactly one SQL data type and is
/// immutable once built.
pub enum Expr {
    /// A column reference; renders as its name and binds nothing.
    Column {
        /// The column's SQL name, emitted verbatim.
        name: String,
        /// The column's SQL data type.
        ty: SqlTypeTag,
    },
    /// A host value bound into the statement; renders as its decimal text
    /// and appends itself to the parameter list.
    Value {
        /// The bound host value.
        value: i64,
        /// The SQL data type the value is bound at.
        ty: SqlTypeTag,
    },
}

impl Expr {
    /// The SQL data type of this expression.
    pub open spec fn sql_type(&self) -> SqlTypeTag {
        match *self {
            Expr::Column { ty, .. } => ty,
            Expr::Value { ty, .. } => ty,
        }
    }

    /// The SQL text this expression emits when rendered.
    pub open spec fn rendered_sql(&self) -> Seq<char> {
        match *self {
            Expr::Column { name, .. } => name@,
            Expr::Value { value, .. } => decimal_of_int(value as int),
        }
    }

    /// The parameters this expression binds when rendered.
    pub open spec fn rendered_binds(&self) -> Seq<i64> {
        match *self {
            Expr::Column { .. } => Seq::empty(),
            Expr::Value { value, .. } => seq![value],
        }
    }

    /// Render this expression into `out`.  Leaf expressions never disturb
    /// the prepared-statement cache flag.
    pub fn walk_ast(&self, out: &mut AstPass)
        ensures
            final(out).sql@ == old(out).sql@ + self.rendered_sql(),
            final(out).binds@ == old(out).binds@ + self.rendered_binds(),
            final(out).safe_to_cache == old(out).safe_to_cache,
    {
        match self {
            Expr::Column { name, .. } => {
                out.push_sql(name.as_str());
                assert(out.binds@ =~= old(out).binds@ + self.rendered_binds());
            },
            Expr::Value { value, .. } => {
                let text = decimal_string_of_i64(*value);
                out.push_sql(text.as_str());
                out.push_bind_param(*value);
                assert(out.binds@ =~= old(out).binds@ + self.rendered_binds());
            },
        }
    }
}

impl QueryId for Expr {
    /// A leaf expression is identified by its structure.
    open spec fn spec_has_static_query_id(&self) -> bool {
        true
    }

    fn has_static_query_id(&self) -> (r: bool) {
        true
    }
}

} // verus!
