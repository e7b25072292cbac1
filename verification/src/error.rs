use vstd::prelude::*;

verus! {

/// Errors reported while typing expressions, building intervals and
/// computing interval arithmetic.
#[derive(Clone, Copy, Debug, PartialEq, Eq, Structural)]
pub enum DataFusionError {
    /// A schema is needed to answer the question, but none was registered.
    MissingSchema,
    /// No field of the schema matches a column reference.
    FieldNotFound,
    /// An unqualified column name matches more than one field of the schema.
    AmbiguousReference,
    /// The operand types of an operation cannot be combined.
    TypeMismatch,
    /// A cast between these integer scalar types is not supported.
    UnsupportedCast,
    /// Interval endpoints that do not form an interval.
    InvalidInterval,
    /// Negation of a value whose type has no negation.
    UnsupportedNegation,
    /// An arithmetic result does not fit its type.
    ArithmeticOverflow,
}

} // verus!
