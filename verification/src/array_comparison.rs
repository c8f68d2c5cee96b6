//! Membership predicates: SQL `IN` and `NOT IN`.

use vstd::prelude::*;
use crate::ast_pass::AstPass;
use crate::decimal::decimal_of_int;
use crate::expression::Expr;
use crate::expression::QueryId;
use crate::sql_types::SqlTypeTag;
use crate::subselect::BoxedSelectQuery;
use crate::subselect::SelectQuery;
use crate::subselect::Subselect;

verus! {

/// The candidate-set fragments joined with `", "` separators, in order.
pub open spec fn comma_joined(parts: Seq<Seq<char>>) -> Seq<char>
    decreases parts.len(),
{
    if parts.len() == 0 {
        Seq::empty()
    } else if parts.len() == 1 {
        parts[0]
    } else {
        comma_joined(parts.drop_last()) + ", "@ + parts.last()
    }
}

/// The candidate-set parameter lists concatenated in order.
pub open spec fn concat_binds(parts: Seq<Seq<i64>>) -> Seq<i64>
    decreases parts.len(),
{
    if parts.len() == 0 {
        Seq::empty()
    } else {
        concat_binds(parts.drop_last()) + parts.last()
    }
}

/// Emptiness of a right-hand candidate set.
///
/// Every adapter usable as the right-hand side of a membership predicate
/// must answer whether it holds zero elements; the predicate consults the
/// answer to decide between the literal membership form and the
/// always-true / always-false sentinels.
pub trait MaybeEmpty {
    /// Whether the adapter represents a candidate set of zero elements.
    spec fn spec_is_empty(&self) -> bool;

    /// Report whether the candidate set has zero elements.
    fn is_empty(&self) -> (r: bool)
        ensures
            r == self.spec_is_empty(),
    ;
}

/// The collection adapter: an ordered, possibly-empty sequence of
/// expressions of one SQL data type, supplied directly as the candidate
/// set.  Order is preserved and duplicates are kept; an empty sequence is
/// a valid first-class state, not an error.
pub struct Many(pub Vec<Expr>);

impl Many {
    /// All member expressions have the SQL data type `t`.
    pub open spec fn has_sql_type(&self, t: SqlTypeTag) -> bool {
        forall|i: int| 0 <= i < self.0@.len() ==> (#[trigger] self.0@[i]).sql_type() == t
    }

    /// The SQL text the adapter emits: its members in order, separated by
    /// `", "`.
    pub open spec fn rendered_sql(&self) -> Seq<char> {
        comma_joined(self.0@.map_values(|e: Expr| e.rendered_sql()))
    }

    /// The parameters the adapter binds: its members' parameters in order.
    pub open spec fn rendered_binds(&self) -> Seq<i64> {
        concat_binds(self.0@.map_values(|e: Expr| e.rendered_binds()))
    }

    /// Render every member in order, separated by `", "`.
    ///
    /// A different collection length produces different SQL text, so the
    /// pass is unconditionally marked unsafe to cache — independent of the
    /// collection's length, including zero and one.
    pub fn walk_ast(&self, out: &mut AstPass)
        ensures
            final(out).sql@ == old(out).sql@ + self.rendered_sql(),
            final(out).binds@ == old(out).binds@ + self.rendered_binds(),
            !final(out).safe_to_cache,
    {
        let ghost pre = *out;
        let ghost sql_parts = self.0@.map_values(|e: Expr| e.rendered_sql());
        let ghost bind_parts = self.0@.map_values(|e: Expr| e.rendered_binds());
        out.unsafe_to_cache_prepared();
        let n = self.0.len();
        let mut i: usize = 0;
        proof {
            assert(pre.sql@ + comma_joined(sql_parts.take(0)) =~= pre.sql@);
            assert(pre.binds@ + concat_binds(bind_parts.take(0)) =~= pre.binds@);
        }
        while i < n
            invariant
                i <= n,
                n == self.0.len(),
                sql_parts == self.0@.map_values(|e: Expr| e.rendered_sql()),
                bind_parts == self.0@.map_values(|e: Expr| e.rendered_binds()),
                out.sql@ == pre.sql@ + comma_joined(sql_parts.take(i as int)),
                out.binds@ == pre.binds@ + concat_binds(bind_parts.take(i as int)),
                !out.safe_to_cache,
            decreases n - i,
        {
            if i != 0 {
                out.push_sql(", ");
            }
            let member = &self.0[i];
            member.walk_ast(out);
            proof {
                let sq = sql_parts.take(i as int);
                let sp = sql_parts.take(i + 1);
                assert(sp =~= sq.push(member.rendered_sql()));
                assert(sp.drop_last() =~= sq);
                if i == 0 {
                    assert(comma_joined(sp) == member.rendered_sql());
                    assert(out.sql@ =~= pre.sql@ + comma_joined(sp));
                } else {
                    assert(comma_joined(sp) == comma_joined(sq) + ", "@ + member.rendered_sql());
                    assert(out.sql@ =~= pre.sql@ + comma_joined(sp));
                }
                let bq = bind_parts.take(i as int);
                let bp = bind_parts.take(i + 1);
                assert(bp =~= bq.push(member.rendered_binds()));
                assert(bp.drop_last() =~= bq);
                assert(concat_binds(bp) == concat_binds(bq) + member.rendered_binds());
                assert(out.binds@ =~= pre.binds@ + concat_binds(bp));
            }
            i += 1;
        }
        proof {
            assert(sql_parts.take(n as int) =~= sql_parts);
            assert(bind_parts.take(n as int) =~= bind_parts);
        }
    }
}

impl MaybeEmpty for Many {
    /// A collection's emptiness is the literal length check of its
    /// sequence.
    open spec fn spec_is_empty(&self) -> bool {
        self.0@.len() == 0
    }

    fn is_empty(&self) -> (r: bool) {
        self.0.len() == 0
    }
}

impl QueryId for Many {
    /// A collection opts out of structural plan identity: two builds with
    /// different lengths or contents must never share a prepared plan.
    open spec fn spec_has_static_query_id(&self) -> bool {
        false
    }

    fn has_static_query_id(&self) -> (r: bool) {
        false
    }
}

/// The right-hand side of a membership predicate: either a directly
/// supplied collection of expressions or a nested select query.
pub enum InExpression {
    /// A literal collection of candidate expressions.
    Values(Many),
    /// A nested single-column select query.
    Subquery(Subselect),
}

impl InExpression {
    /// The adapter's declared SQL data type is `t`.
    pub open spec fn has_sql_type(&self, t: SqlTypeTag) -> bool {
        match *self {
            InExpression::Values(m) => m.has_sql_type(t),
            InExpression::Subquery(s) => s.sql_type() == t,
        }
    }

    /// The SQL text the adapter emits when rendered.
    pub open spec fn rendered_sql(&self) -> Seq<char> {
        match *self {
            InExpression::Values(m) => m.rendered_sql(),
            InExpression::Subquery(s) => s.rendered_sql(),
        }
    }

    /// The parameters the adapter binds when rendered.
    pub open spec fn rendered_binds(&self) -> Seq<i64> {
        match *self {
            InExpression::Values(m) => m.rendered_binds(),
            InExpression::Subquery(s) => s.rendered_binds(),
        }
    }

    /// Whether rendering the adapter leaves the pass cacheable.  A
    /// collection never does; a subquery defers entirely to the wrapped
    /// query's own signal.
    pub open spec fn rendered_cache_safe(&self) -> bool {
        match *self {
            InExpression::Values(_) => false,
            InExpression::Subquery(s) => s.rendered_cache_safe(),
        }
    }

    /// Render the adapter into `out`.
    pub fn walk_ast(&self, out: &mut AstPass)
        ensures
            final(out).sql@ == old(out).sql@ + self.rendered_sql(),
            final(out).binds@ == old(out).binds@ + self.rendered_binds(),
            final(out).safe_to_cache == (old(out).safe_to_cache && self.rendered_cache_safe()),
    {
        match self {
            InExpression::Values(m) => m.walk_ast(out),
            InExpression::Subquery(s) => s.walk_ast(out),
        }
    }
}

impl MaybeEmpty for InExpression {
    /// Emptiness of whichever adapter stands on the right-hand side.
    open spec fn spec_is_empty(&self) -> bool {
        match *self {
            InExpression::Values(m) => m.spec_is_empty(),
            InExpression::Subquery(s) => s.spec_is_empty(),
        }
    }

    fn is_empty(&self) -> (r: bool) {
        match self {
            InExpression::Values(m) => m.is_empty(),
            InExpression::Subquery(s) => s.is_empty(),
        }
    }
}

impl QueryId for InExpression {
    /// The fingerprint of whichever adapter stands on the right-hand side.
    open spec fn spec_has_static_query_id(&self) -> bool {
        match *self {
            InExpression::Values(m) => m.spec_has_static_query_id(),
            InExpression::Subquery(s) => s.spec_has_static_query_id(),
        }
    }

    fn has_static_query_id(&self) -> (r: bool) {
        match self {
            InExpression::Values(m) => m.has_static_query_id(),
            InExpression::Subquery(s) => s.has_static_query_id(),
        }
    }
}

/// Conversion of a raw candidate-set source into the right-hand adapter of
/// a membership predicate, for a caller-specified target SQL data type.
///
/// This is the only intended construction path for a right-hand adapter.
/// The `requires` clause is the data-type agreement check: it is
/// discharged statically at every call site, once, when the adapter is
/// built, and the tags are trusted thereafter — nothing is re-checked at
/// render time.
pub trait AsInExpression {
    /// Whether this source can produce an adapter of target type `st`.
    spec fn spec_convertible_to(&self, st: SqlTypeTag) -> bool;

    /// Exactly which adapters `as_in_expression` may produce for target
    /// type `st`.
    spec fn spec_conversion(&self, st: SqlTypeTag, r: InExpression) -> bool;

    /// Convert this source into a right-hand adapter of type `st`.
    fn as_in_expression(self, st: SqlTypeTag) -> (r: InExpression)
        requires
            self.spec_convertible_to(st),
        ensures
            self.spec_conversion(st, r),
            r.has_sql_type(st),
    ;
}

impl AsInExpression for Vec<i64> {
    /// Host integers bind at the integer SQL type only.
    open spec fn spec_convertible_to(&self, st: SqlTypeTag) -> bool {
        st == SqlTypeTag::Integer
    }

    /// Every value becomes one bound-value expression of type `st`,
    /// independently, in input order, duplicates kept.
    open spec fn spec_conversion(&self, st: SqlTypeTag, r: InExpression) -> bool {
        match r {
            InExpression::Values(m) => m.0@ == self@.map_values(
                |v: i64| Expr::Value { value: v, ty: st },
            ),
            InExpression::Subquery(_) => false,
        }
    }

    fn as_in_expression(self, st: SqlTypeTag) -> (r: InExpression) {
        let ghost target = self@.map_values(|v: i64| Expr::Value { value: v, ty: st });
        let mut exprs: Vec<Expr> = Vec::new();
        let n = self.len();
        let mut i: usize = 0;
        while i < n
            invariant
                i <= n,
                n == self.len(),
                target == self@.map_values(|v: i64| Expr::Value { value: v, ty: st }),
                exprs@ == target.take(i as int),
            decreases n - i,
        {
            exprs.push(Expr::Value { value: self[i], ty: st });
            proof {
                assert(exprs@ =~= target.take(i + 1));
            }
            i += 1;
        }
        proof {
            assert(target.take(n as int) =~= target);
        }
        let r = InExpression::Values(Many(exprs));
        proof {
            assert(r.has_sql_type(st));
        }
        r
    }
}

impl AsInExpression for Vec<Expr> {
    /// Ready-made expressions convert when they all already have the
    /// target type.
    open spec fn spec_convertible_to(&self, st: SqlTypeTag) -> bool {
        forall|i: int| 0 <= i < self@.len() ==> (#[trigger] self@[i]).sql_type() == st
    }

    /// The collection is wrapped unchanged: order preserved, duplicates
    /// kept.
    open spec fn spec_conversion(&self, st: SqlTypeTag, r: InExpression) -> bool {
        match r {
            InExpression::Values(m) => m.0@ == self@,
            InExpression::Subquery(_) => false,
        }
    }

    fn as_in_expression(self, st: SqlTypeTag) -> (r: InExpression) {
        InExpression::Values(Many(self))
    }
}

impl AsInExpression for SelectQuery {
    /// A select query converts when its projected column has the target
    /// type.
    open spec fn spec_convertible_to(&self, st: SqlTypeTag) -> bool {
        self.ty == st
    }

    /// The query is wrapped unchanged as a subquery adapter.
    open spec fn spec_conversion(&self, st: SqlTypeTag, r: InExpression) -> bool {
        r == InExpression::Subquery(Subselect { query: *self })
    }

    fn as_in_expression(self, st: SqlTypeTag) -> (r: InExpression) {
        InExpression::Subquery(Subselect::new(self))
    }
}

impl AsInExpression for BoxedSelectQuery {
    /// A boxed select query converts when its projected column has the
    /// target type.
    open spec fn spec_convertible_to(&self, st: SqlTypeTag) -> bool {
        self.query.ty == st
    }

    /// The wrapped query is nested unchanged as a subquery adapter.
    open spec fn spec_conversion(&self, st: SqlTypeTag, r: InExpression) -> bool {
        r == InExpression::Subquery(Subselect { query: self.query })
    }

    fn as_in_expression(self, st: SqlTypeTag) -> (r: InExpression) {
        InExpression::Subquery(Subselect::new(self.query))
    }
}

/// The in-set membership predicate: true when the left expression's value
/// is among the right-hand candidate set.  A boolean expression itself.
pub struct In {
    /// The tested expression.
    pub left: Expr,
    /// The right-hand candidate set, of the same SQL data type.
    pub values: InExpression,
}

/// The not-in-set membership predicate: true when the left expression's
/// value is not among the right-hand candidate set.  A boolean expression
/// itself.
pub struct NotIn {
    /// The tested expression.
    pub left: Expr,
    /// The right-hand candidate set, of the same SQL data type.
    pub values: InExpression,
}

impl In {
    /// Pair a left expression with a right-hand candidate set of the same
    /// SQL data type.  Type agreement is checked here, at construction,
    /// and never again at render time.
    pub fn new(left: Expr, values: InExpression) -> (r: Self)
        requires
            values.has_sql_type(left.sql_type()),
        ensures
            r.left == left,
            r.values == values,
    {
        In { left, values }
    }

    /// The predicate is itself an expression, of boolean SQL type.
    pub open spec fn sql_type(&self) -> SqlTypeTag {
        SqlTypeTag::Bool
    }

    /// The SQL text the predicate emits: the always-false sentinel for an
    /// empty candidate set, otherwise the literal membership form.
    pub open spec fn rendered_sql(&self) -> Seq<char> {
        if self.values.spec_is_empty() {
            "1=0"@
        } else {
            self.left.rendered_sql() + " IN ("@ + self.values.rendered_sql() + ")"@
        }
    }

    /// The parameters the predicate binds, in emission order.
    pub open spec fn rendered_binds(&self) -> Seq<i64> {
        if self.values.spec_is_empty() {
            Seq::empty()
        } else {
            self.left.rendered_binds() + self.values.rendered_binds()
        }
    }

    /// Whether rendering the predicate leaves the pass cacheable.  The
    /// sentinel forms render no operand and disturb nothing.
    pub open spec fn rendered_cache_safe(&self) -> bool {
        if self.values.spec_is_empty() {
            true
        } else {
            self.values.rendered_cache_safe()
        }
    }

    /// Render the predicate into `out`: `1=0` for an empty candidate set,
    /// otherwise the left operand, ` IN (`, the candidate set, `)`.
    pub fn walk_ast(&self, out: &mut AstPass)
        ensures
            final(out).sql@ == old(out).sql@ + self.rendered_sql(),
            final(out).binds@ == old(out).binds@ + self.rendered_binds(),
            final(out).safe_to_cache == (old(out).safe_to_cache && self.rendered_cache_safe()),
    {
        if self.values.is_empty() {
            out.push_sql("1=0");
            assert(out.binds@ =~= old(out).binds@ + self.rendered_binds());
        } else {
            self.left.walk_ast(out);
            out.push_sql(" IN (");
            self.values.walk_ast(out);
            out.push_sql(")");
            assert(out.sql@ =~= old(out).sql@ + self.rendered_sql());
            assert(out.binds@ =~= old(out).binds@ + self.rendered_binds());
        }
    }

    /// Render the predicate into a fresh pass and hand the pass back.
    pub fn render(&self) -> (out: AstPass)
        ensures
            out.sql@ == self.rendered_sql(),
            out.binds@ == self.rendered_binds(),
            out.safe_to_cache == self.rendered_cache_safe(),
    {
        let mut out = AstPass::new();
        self.walk_ast(&mut out);
        proof {
            assert(out.sql@ =~= self.rendered_sql());
            assert(out.binds@ =~= self.rendered_binds());
        }
        out
    }
}

impl QueryId for In {
    /// Normal structural composition of the two operands' fingerprints.
    open spec fn spec_has_static_query_id(&self) -> bool {
        self.left.spec_has_static_query_id() && self.values.spec_has_static_query_id()
    }

    fn has_static_query_id(&self) -> (r: bool) {
        self.left.has_static_query_id() && self.values.has_static_query_id()
    }
}

impl NotIn {
    /// Pair a left expression with a right-hand candidate set of the same
    /// SQL data type.  Type agreement is checked here, at construction,
    /// and never again at render time.
    pub fn new(left: Expr, values: InExpression) -> (r: Self)
        requires
            values.has_sql_type(left.sql_type()),
        ensures
            r.left == left,
            r.values == values,
    {
        NotIn { left, values }
    }

    /// The predicate is itself an expression, of boolean SQL type.
    pub open spec fn sql_type(&self) -> SqlTypeTag {
        SqlTypeTag::Bool
    }

    /// The SQL text the predicate emits: the always-true sentinel for an
    /// empty candidate set, otherwise the literal membership form.
    pub open spec fn rendered_sql(&self) -> Seq<char> {
        if self.values.spec_is_empty() {
            "1=1"@
        } else {
            self.left.rendered_sql() + " NOT IN ("@ + self.values.rendered_sql() + ")"@
        }
    }

    /// The parameters the predicate binds, in emission order.
    pub open spec fn rendered_binds(&self) -> Seq<i64> {
        if self.values.spec_is_empty() {
            Seq::empty()
        } else {
            self.left.rendered_binds() + self.values.rendered_binds()
        }
    }

    /// Whether rendering the predicate leaves the pass cacheable.  The
    /// sentinel forms render no operand and disturb nothing.
    pub open spec fn rendered_cache_safe(&self) -> bool {
        if self.values.spec_is_empty() {
            true
        } else {
            self.values.rendered_cache_safe()
        }
    }

    /// Render the predicate into `out`: `1=1` for an empty candidate set,
    /// otherwise the left operand, ` NOT IN (`, the candidate set, `)`.
    pub fn walk_ast(&self, out: &mut AstPass)
        ensures
            final(out).sql@ == old(out).sql@ + self.rendered_sql(),
            final(out).binds@ == old(out).binds@ + self.rendered_binds(),
            final(out).safe_to_cache == (old(out).safe_to_cache && self.rendered_cache_safe()),
    {
        if self.values.is_empty() {
            out.push_sql("1=1");
            assert(out.binds@ =~= old(out).binds@ + self.rendered_binds());
        } else {
            self.left.walk_ast(out);
            out.push_sql(" NOT IN (");
            self.values.walk_ast(out);
            out.push_sql(")");
            assert(out.sql@ =~= old(out).sql@ + self.rendered_sql());
            assert(out.binds@ =~= old(out).binds@ + self.rendered_binds());
        }
    }

    /// Render the predicate into a fresh pass and hand the pass back.
    pub fn render(&self) -> (out: AstPass)
        ensures
            out.sql@ == self.rendered_sql(),
            out.binds@ == self.rendered_binds(),
            out.safe_to_cache == self.rendered_cache_safe(),
    {
        let mut out = AstPass::new();
        self.walk_ast(&mut out);
        proof {
            assert(out.sql@ =~= self.rendered_sql());
            assert(out.binds@ =~= self.rendered_binds());
        }
        out
    }
}

impl QueryId for NotIn {
    /// Normal structural composition of the two operands' fingerprints.
    open spec fn spec_has_static_query_id(&self) -> bool {
        self.left.spec_has_static_query_id() && self.values.spec_has_static_query_id()
    }

    fn has_static_query_id(&self) -> (r: bool) {
        self.left.has_static_query_id() && self.values.has_static_query_id()
    }
}

/// The parameters bound by a sequence of bound-value expressions are
/// exactly the underlying values, in order.
proof fn lemma_value_binds_concat(vs: Seq<i64>, st: SqlTypeTag)
    ensures
        concat_binds(
            vs.map_values(|v: i64| Expr::Value { value: v, ty: st }).map_values(
                |e: Expr| e.rendered_binds(),
            ),
        ) == vs,
    decreases vs.len(),
{
    let parts = vs.map_values(|v: i64| Expr::Value { value: v, ty: st }).map_values(
        |e: Expr| e.rendered_binds(),
    );
    if vs.len() == 0 {
        assert(concat_binds(parts) =~= vs);
    } else {
        let head = vs.drop_last();
        lemma_value_binds_concat(head, st);
        let head_parts = head.map_values(|v: i64| Expr::Value { value: v, ty: st }).map_values(
            |e: Expr| e.rendered_binds(),
        );
        assert(parts.drop_last() =~= head_parts);
        assert(parts.last() =~= seq![vs.last()]);
        assert(concat_binds(parts) =~= vs);
    }
}

/// Law: converting a collection of host values produces an adapter that
/// binds exactly those values — one parameter per value, in input order,
/// duplicates kept.
pub proof fn lemma_collection_params_are_inputs(vs: Vec<i64>, st: SqlTypeTag, r: InExpression)
    requires
        vs.spec_conversion(st, r),
    ensures
        r.rendered_binds() == vs@,
        r.rendered_binds().len() == vs@.len(),
        r.spec_is_empty() == (vs@.len() == 0),
{
    lemma_value_binds_concat(vs@, st);
}

/// Law: a membership predicate over a nonempty converted collection
/// renders the literal membership form — the left operand, the membership
/// keyword, and the values' decimal texts joined by `", "` — with exactly
/// one bound parameter per input value, in input order.
pub proof fn lemma_in_nonempty_collection_form(vs: Vec<i64>, st: SqlTypeTag, p: In)
    requires
        vs.spec_conversion(st, p.values),
        vs@.len() > 0,
    ensures
        p.rendered_sql() == p.left.rendered_sql() + " IN ("@ + comma_joined(
            vs@.map_values(|v: i64| decimal_of_int(v as int)),
        ) + ")"@,
        p.rendered_binds() == p.left.rendered_binds() + vs@,
{
    lemma_collection_params_are_inputs(vs, st, p.values);
    let m = p.values->Values_0;
    assert(m.0@.map_values(|e: Expr| e.rendered_sql()) =~= vs@.map_values(
        |v: i64| decimal_of_int(v as int),
    ));
}

/// Law: a not-in predicate over a nonempty converted collection renders
/// the literal membership form with exactly one bound parameter per input
/// value, in input order.
pub proof fn lemma_not_in_nonempty_collection_form(vs: Vec<i64>, st: SqlTypeTag, p: NotIn)
    requires
        vs.spec_conversion(st, p.values),
        vs@.len() > 0,
    ensures
        p.rendered_sql() == p.left.rendered_sql() + " NOT IN ("@ + comma_joined(
            vs@.map_values(|v: i64| decimal_of_int(v as int)),
        ) + ")"@,
        p.rendered_binds() == p.left.rendered_binds() + vs@,
{
    lemma_collection_params_are_inputs(vs, st, p.values);
    let m = p.values->Values_0;
    assert(m.0@.map_values(|e: Expr| e.rendered_sql()) =~= vs@.map_values(
        |v: i64| decimal_of_int(v as int),
    ));
}

/// Law: over an empty converted collection, the in-set predicate renders
/// the always-false sentinel and the not-in-set predicate the always-true
/// sentinel, each with zero bound parameters.
pub proof fn lemma_empty_collection_sentinels(
    vs: Vec<i64>,
    st: SqlTypeTag,
    p: In,
    q: NotIn,
)
    requires
        vs@.len() == 0,
        vs.spec_conversion(st, p.values),
        vs.spec_conversion(st, q.values),
    ensures
        p.rendered_sql() == "1=0"@,
        p.rendered_binds() == Seq::<i64>::empty(),
        q.rendered_sql() == "1=1"@,
        q.rendered_binds() == Seq::<i64>::empty(),
{
}

/// Law: a subquery right-hand side never reports itself empty, so the
/// predicate always renders the real subquery form, whatever row count
/// the query turns out to have at execution time.
pub proof fn lemma_subquery_renders_real_form(p: In, q: NotIn, s: Subselect, t: Subselect)
    requires
        p.values == InExpression::Subquery(s),
        q.values == InExpression::Subquery(t),
    ensures
        !p.values.spec_is_empty(),
        p.rendered_sql() == p.left.rendered_sql() + " IN ("@ + s.rendered_sql() + ")"@,
        p.rendered_binds() == p.left.rendered_binds() + s.rendered_binds(),
        !q.values.spec_is_empty(),
        q.rendered_sql() == q.left.rendered_sql() + " NOT IN ("@ + t.rendered_sql() + ")"@,
        q.rendered_binds() == q.left.rendered_binds() + t.rendered_binds(),
{
}

/// Law (idempotence): rendering one constructed predicate twice into two
/// fresh passes yields identical SQL text and identical parameter lists —
/// any two outcomes that meet `render`'s contract agree.
pub proof fn lemma_in_render_idempotent(p: In, a: AstPass, b: AstPass)
    requires
        a.sql@ == p.rendered_sql(),
        a.binds@ == p.rendered_binds(),
        b.sql@ == p.rendered_sql(),
        b.binds@ == p.rendered_binds(),
    ensures
        a.sql@ == b.sql@,
        a.binds@ == b.binds@,
{
}

/// Law (idempotence): as for the in-set predicate, two renders of one
/// not-in-set predicate agree on text and parameters.
pub proof fn lemma_not_in_render_idempotent(p: NotIn, a: AstPass, b: AstPass)
    requires
        a.sql@ == p.rendered_sql(),
        a.binds@ == p.rendered_binds(),
        b.sql@ == p.rendered_sql(),
        b.binds@ == p.rendered_binds(),
    ensures
        a.sql@ == b.sql@,
        a.binds@ == b.binds@,
{
}

/// Law (order preservation): permuting the input collection before
/// conversion permutes the rendered parameter list identically.
pub proof fn lemma_collection_params_follow_permutation(
    vs1: Vec<i64>,
    vs2: Vec<i64>,
    p: Seq<int>,
    st: SqlTypeTag,
    r1: InExpression,
    r2: InExpression,
)
    requires
        vs1.spec_conversion(st, r1),
        vs2.spec_conversion(st, r2),
        p.len() == vs1@.len(),
        forall|i: int| 0 <= i < p.len() ==> 0 <= #[trigger] p[i] < vs1@.len(),
        vs2@ == Seq::new(p.len(), |i: int| vs1@[p[i]]),
    ensures
        r2.rendered_binds() == Seq::new(p.len(), |i: int| r1.rendered_binds()[p[i]]),
{
    lemma_collection_params_are_inputs(vs1, st, r1);
    lemma_collection_params_are_inputs(vs2, st, r2);
    assert(r2.rendered_binds() =~= Seq::new(p.len(), |i: int| r1.rendered_binds()[p[i]]));
}

/// Law (cacheability): rendering a predicate backed by a nonempty
/// collection always signals "not cacheable", for any length including
/// one, while a predicate backed by a subquery defers entirely to the
/// wrapped query's own cacheability signal.  (The collection adapter
/// itself marks the pass unconditionally, empty included: see
/// `Many::walk_ast`; an empty collection never reaches the adapter
/// because the predicate emits a sentinel instead.)
pub proof fn lemma_cacheability(p: In, q: NotIn)
    ensures
        p.values is Values && p.values->Values_0.0@.len() > 0 ==> !p.rendered_cache_safe(),
        p.values is Subquery ==> p.rendered_cache_safe()
            == p.values->Subquery_0.query.safe_to_cache,
        q.values is Values && q.values->Values_0.0@.len() > 0 ==> !q.rendered_cache_safe(),
        q.values is Subquery ==> q.rendered_cache_safe()
            == q.values->Subquery_0.query.safe_to_cache,
{
}

} // verus!
