//! Subquery adapters: a nested select query used as a candidate set.

use vstd::prelude::*;
use crate::array_comparison::MaybeEmpty;
use crate::ast_pass::AstPass;
use crate::expression::QueryId;
use crate::sql_types::SqlTypeTag;

verus! {

/// A statically typed single-column select query, seen from outside: the
/// SQL text it renders, the parameters it binds in order, the SQL data
/// type of its projected column, and its own caching signals.  Building
/// and executing the query belong to the surrounding query builder; this
/// crate only nests it as the right-hand side of a membership predicate.
pub struct SelectQuery {
    /// The query's SQL text, emitted verbatim when the query is rendered.
    pub sql: String,
    /// The parameters the query binds, in the order its placeholders occur.
    pub binds: Vec<i64>,
    /// The SQL data type of the query's single projected column.
    pub ty: SqlTypeTag,
    /// The query's own prepared-statement caching signal.
    pub safe_to_cache: bool,
    /// Whether the query has a structural plan fingerprint.
    pub static_query_id: bool,
}

impl SelectQuery {
    /// Render the query: its text, then its parameters.  The query defers
    /// nothing: its own caching signal is merged into the pass.
    pub fn walk_ast(&self, out: &mut AstPass)
        ensures
            final(out).sql@ == old(out).sql@ + self.sql@,
            final(out).binds@ == old(out).binds@ + self.binds@,
            final(out).safe_to_cache == (old(out).safe_to_cache && self.safe_to_cache),
    {
        let ghost pre = *out;
        out.push_sql(self.sql.as_str());
        let n = self.binds.len();
        let mut i: usize = 0;
        while i < n
            invariant
                i <= n,
                n == self.binds.len(),
                out.sql@ == pre.sql@ + self.sql@,
                out.binds@ == pre.binds@ + self.binds@.take(i as int),
                out.safe_to_cache == pre.safe_to_cache,
            decreases n - i,
        {
            out.push_bind_param(self.binds[i]);
            proof {
                assert(self.binds@.take(i + 1) =~= self.binds@.take(i as int).push(
                    self.binds@[i as int],
                ));
                assert(out.binds@ =~= pre.binds@ + self.binds@.take(i + 1));
            }
            i += 1;
        }
        proof {
            assert(self.binds@.take(n as int) =~= self.binds@);
        }
        if !self.safe_to_cache {
            out.unsafe_to_cache_prepared();
        }
    }
}

impl QueryId for SelectQuery {
    /// Whether the nested query has a structural fingerprint is recorded on
    /// the query itself.
    open spec fn spec_has_static_query_id(&self) -> bool {
        self.static_query_id
    }

    fn has_static_query_id(&self) -> (r: bool) {
        self.static_query_id
    }
}

/// A boxed, dynamically typed select query.  Boxing erases the query's
/// structure, so a boxed query never has a structural plan fingerprint;
/// everything else is carried by the wrapped query value.
pub struct BoxedSelectQuery {
    /// The wrapped query.
    pub query: SelectQuery,
}

impl QueryId for BoxedSelectQuery {
    /// Boxing erases structure, so there is never a structural fingerprint.
    open spec fn spec_has_static_query_id(&self) -> bool {
        false
    }

    fn has_static_query_id(&self) -> (r: bool) {
        false
    }
}

/// A select query wrapped for use as a single-column expression: the
/// right-hand adapter of a membership predicate when the candidate set
/// comes from a query.
pub struct Subselect {
    /// The wrapped query.
    pub query: SelectQuery,
}

impl Subselect {
    /// Wrap a select query as a single-column expression of the query's
    /// projected column type.
    pub fn new(query: SelectQuery) -> (r: Self)
        ensures
            r.query == query,
    {
        Subselect { query }
    }

    /// The SQL data type of the wrapped query's projected column.
    pub open spec fn sql_type(&self) -> SqlTypeTag {
        self.query.ty
    }

    /// The SQL text the adapter emits when rendered.
    pub open spec fn rendered_sql(&self) -> Seq<char> {
        self.query.sql@
    }

    /// The parameters the adapter binds when rendered.
    pub open spec fn rendered_binds(&self) -> Seq<i64> {
        self.query.binds@
    }

    /// Whether rendering the adapter leaves the pass cacheable: decided
    /// entirely by the wrapped query's own signal.
    pub open spec fn rendered_cache_safe(&self) -> bool {
        self.query.safe_to_cache
    }

    /// Render the wrapped query.
    pub fn walk_ast(&self, out: &mut AstPass)
        ensures
            final(out).sql@ == old(out).sql@ + self.rendered_sql(),
            final(out).binds@ == old(out).binds@ + self.rendered_binds(),
            final(out).safe_to_cache == (old(out).safe_to_cache && self.rendered_cache_safe()),
    {
        self.query.walk_ast(out);
    }
}

impl MaybeEmpty for Subselect {
    /// A nested query's row count is unknown until it is executed, so a
    /// subquery adapter commits to "not empty" by design: the predicate
    /// must always emit the real subquery form rather than guess, even for
    /// a query statically known to return nothing.
    open spec fn spec_is_empty(&self) -> bool {
        false
    }

    fn is_empty(&self) -> (r: bool) {
        false
    }
}

impl QueryId for Subselect {
    /// Normal structural composition: the adapter's fingerprint is its
    /// operand's.
    open spec fn spec_has_static_query_id(&self) -> bool {
        self.query.spec_has_static_query_id()
    }

    fn has_static_query_id(&self) -> (r: bool) {
        self.query.has_static_query_id()
    }
}

} // verus!
