//! The rendering pass that expression nodes write themselves into.

use vstd::prelude::*;
use vstd::string::StringExecFns;

verus! {

/// Output of one rendering pass over an expression tree: the SQL text built
/// so far, the bound parameters in the order their placeholders were
/// emitted, and whether the text built so far is still safe to cache as a
/// reusable prepared-statement shape.
///
/// The cache flag only ever moves from `true` to `false`: any node anywhere
/// in the tree may mark the statement uncacheable, and no node can undo
/// that.  The buffer must not be shared between concurrent renders of
/// different trees; single-writer discipline is the caller's obligation.
pub struct AstPass {
    /// The SQL text emitted so far.
    pub sql: String,
    /// The bound parameter values emitted so far, in emission order.
    pub binds: Vec<i64>,
    /// Whether the emitted text may still be cached as a prepared-statement
    /// shape.
    pub safe_to_cache: bool,
}

impl AstPass {
    /// A fresh pass: no text, no parameters, still safe to cache.
    pub fn new() -> (out: AstPass)
        ensures
            out.sql@ == Seq::<char>::empty(),
            out.binds@ == Seq::<i64>::empty(),
            out.safe_to_cache,
    {
        AstPass { sql: String::new(), binds: Vec::new(), safe_to_cache: true }
    }

    /// Append literal SQL text.
    pub fn push_sql(&mut self, text: &str)
        ensures
            final(self).sql@ == old(self).sql@ + text@,
            final(self).binds@ == old(self).binds@,
            final(self).safe_to_cache == old(self).safe_to_cache,
    {
        self.sql.append(text);
    }

    /// Append one bound parameter value.
    pub fn push_bind_param(&mut self, value: i64)
        ensures
            final(self).sql@ == old(self).sql@,
            final(self).binds@ == old(self).binds@.push(value),
            final(self).safe_to_cache == old(self).safe_to_cache,
    {
        self.binds.push(value);
    }

    /// Mark the statement being built as unsafe to cache as a prepared
    /// statement.  The mark is permanent for this pass.
    pub fn unsafe_to_cache_prepared(&mut self)
        ensures
            final(self).sql@ == old(self).sql@,
            final(self).binds@ == old(self).binds@,
            !final(self).safe_to_cache,
    {
        self.safe_to_cache = false;
    }
}

} // verus!
