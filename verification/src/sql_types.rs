//! The SQL data types that expressions can carry.

use vstd::prelude::*;

verus! {

/// Tag for the SQL data type of an expression.
///
/// The surrounding query builder decides type agreement between the two
/// operands of a membership predicate once, when the predicate is built;
/// the tags are never consulted again at render time.
#[derive(Clone, Copy, Debug, PartialEq, Eq, Structural)]
pub enum SqlTypeTag {
    /// Boolean SQL type; every membership predicate itself has this type.
    Bool,
    /// Integer SQL type; the type of directly supplied host values.
    Integer,
    /// Character-string SQL type.
    Text,
}

} // verus!
