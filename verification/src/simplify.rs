//! Structs and traits to provide the information needed for expression simplification.
use vstd::prelude::*;

use std::sync::Arc;

use crate::column::Column;
use crate::data_type::{
    in_int_range, lemma_widened_sum_fits, signed_width, spec_is_signed_int, spec_is_small_int,
    DataType,
};
use crate::error::DataFusionError;
use crate::expr::{spec_expr_nullable, spec_expr_type, Alias, Cast, Expr};
use crate::schema::DFSchema;
use crate::type_tracker::{OriginalTypeInfo, OriginalTypeTracker};

verus! {

/// A shared schema.
pub type DFSchemaRef = Arc<DFSchema>;

/// Properties of the query execution needed to evaluate expressions.
#[derive(Clone, Copy, Debug)]
pub struct ExecutionProps {
    /// Start time of the query, in nanoseconds since the epoch, when known.
    pub query_execution_start_time: Option<i64>,
}

impl ExecutionProps {
    /// Properties of a query whose start time is not known.
    pub fn new() -> (r: Self)
        ensures
            r.query_execution_start_time is None,
    {
        ExecutionProps { query_execution_start_time: None }
    }
}

/// Provides the information necessary to apply algebraic simplification to an
/// [Expr]. See [SimplifyContext] for one concrete implementation.
pub trait SimplifyInfo {
    /// Whether `expr` has boolean type.
    spec fn spec_is_boolean_type(&self, expr: Expr) -> Result<bool, DataFusionError>;

    /// Whether `expr` may be null.
    spec fn spec_nullable(&self, expr: Expr) -> Result<bool, DataFusionError>;

    /// The data type of `expr`.
    spec fn spec_data_type(&self, expr: Expr) -> Result<DataType, DataFusionError>;

    /// Original type information of `column` before coercion.
    spec fn spec_original_type_info(&self, column: Column) -> Result<
        Option<OriginalTypeInfo>,
        DataFusionError,
    >;

    /// Whether `expr` was originally of a small integer type (Int8/16/32).
    spec fn spec_is_originally_small_int(&self, expr: Expr) -> Result<bool, DataFusionError>;

    /// Returns true if this Expr has boolean type
    fn is_boolean_type(&self, expr: &Expr) -> (r: Result<bool, DataFusionError>)
        ensures
            r == self.spec_is_boolean_type(*expr),
    ;

    /// Returns true of this expr is nullable (could possibly be NULL)
    fn nullable(&self, expr: &Expr) -> (r: Result<bool, DataFusionError>)
        ensures
            r == self.spec_nullable(*expr),
    ;

    /// Returns details needed for partial expression evaluation
    fn execution_props(&self) -> &ExecutionProps;

    /// Returns data type of this expr needed for determining optimized int type of a value
    fn get_data_type(&self, expr: &Expr) -> (r: Result<DataType, DataFusionError>)
        ensures
            r == self.spec_data_type(*expr),
    ;

    /// Get original type information for a column before coercion
    fn get_original_type_info(&self, column: &Column) -> (r: Result<
        Option<OriginalTypeInfo>,
        DataFusionError,
    >)
        ensures
            r == self.spec_original_type_info(*column),
    ;

    /// Check if an expression was originally a small integer type (Int8/16/32)
    fn is_originally_small_int(&self, expr: &Expr) -> (r: Result<bool, DataFusionError>)
        ensures
            r == self.spec_is_originally_small_int(*expr),
    ;
}

/// Provides simplification information based on a schema and [`ExecutionProps`].
pub struct SimplifyContext<'a> {
    schema: Option<DFSchemaRef>,
    props: &'a ExecutionProps,
    original_type_tracker: Option<OriginalTypeTracker>,
}

impl<'a> SimplifyContext<'a> {
    /// The registered schema, if any.
    pub closed spec fn spec_schema(&self) -> Option<DFSchema> {
        match self.schema {
            Some(s) => Some(*s),
            None => None,
        }
    }

    /// The execution properties.
    pub closed spec fn spec_props(&self) -> ExecutionProps {
        *self.props
    }

    /// The registered original type tracker, if any.
    pub closed spec fn spec_tracker(&self) -> Option<OriginalTypeTracker> {
        self.original_type_tracker
    }

    /// Create a new SimplifyContext
    pub fn new(props: &'a ExecutionProps) -> (r: Self)
        ensures
            r.spec_schema() is None,
            r.spec_props() == *props,
            r.spec_tracker() is None,
    {
        Self { schema: None, props, original_type_tracker: None }
    }

    /// Register a [`DFSchemaRef`] with this context
    pub fn with_schema(self, schema: DFSchemaRef) -> (r: Self)
        ensures
            r.spec_schema() == Some(*schema),
            r.spec_props() == self.spec_props(),
            r.spec_tracker() == self.spec_tracker(),
    {
        Self { schema: Some(schema), props: self.props, original_type_tracker: self.original_type_tracker }
    }

    /// Set the original type tracker for overflow-safe optimization
    pub fn with_original_type_tracker(self, tracker: OriginalTypeTracker) -> (r: Self)
        ensures
            r.spec_schema() == self.spec_schema(),
            r.spec_props() == self.spec_props(),
            r.spec_tracker() == Some(tracker),
    {
        Self { schema: self.schema, props: self.props, original_type_tracker: Some(tracker) }
    }
}

/// The type of `expr` in `schema`, if a schema is known.
pub open spec fn type_in(schema: Option<DFSchema>, expr: Expr) -> Result<DataType, DataFusionError> {
    match schema {
        Some(s) => spec_expr_type(expr, s.fields@),
        None => Err(DataFusionError::MissingSchema),
    }
}

/// Whether `expr` was originally of a small integer type, given the schema and the
/// tracker of original types: a column promoted from a small integer type, possibly
/// under casts and aliases.
pub open spec fn originally_small_int_in(
    schema: Option<DFSchema>,
    tracker: Option<OriginalTypeTracker>,
    expr: Expr,
) -> Result<bool, DataFusionError>
    decreases expr,
{
    match expr {
        Expr::Column(col) => match tracker {
            Some(t) => match type_in(schema, expr) {
                Ok(current) => Ok(t.spec_was_promoted_from_small_int(col, current)),
                Err(e) => Err(e),
            },
            None => Ok(false),
        },
        Expr::Cast(c) => originally_small_int_in(schema, tracker, *c.expr),
        Expr::Alias(a) => originally_small_int_in(schema, tracker, *a.expr),
        _ => Ok(false),
    }
}

impl<'a> SimplifyContext<'a> {
    fn is_originally_small_int_rec(&self, expr: &Expr) -> (r: Result<bool, DataFusionError>)
        ensures
            r == originally_small_int_in(self.spec_schema(), self.spec_tracker(), *expr),
        decreases *expr,
    {
        match expr {
            Expr::Column(col) => {
                if let Some(tracker) = &self.original_type_tracker {
                    let current_type = self.get_data_type(expr)?;
                    Ok(tracker.was_promoted_from_small_int(col, &current_type))
                } else {
                    Ok(false)
                }
            },
            Expr::Cast(cast_expr) => self.is_originally_small_int_rec(&cast_expr.expr),
            Expr::Alias(alias) => self.is_originally_small_int_rec(&alias.expr),
            _ => Ok(false),
        }
    }
}

impl<'a> SimplifyInfo for SimplifyContext<'a> {
    open spec fn spec_is_boolean_type(&self, expr: Expr) -> Result<bool, DataFusionError> {
        Ok(self.spec_schema() is Some && type_in(self.spec_schema(), expr) == Ok::<
            DataType,
            DataFusionError,
        >(DataType::Boolean))
    }

    open spec fn spec_nullable(&self, expr: Expr) -> Result<bool, DataFusionError> {
        match self.spec_schema() {
            Some(s) => spec_expr_nullable(expr, s.fields@),
            None => Err(DataFusionError::MissingSchema),
        }
    }

    open spec fn spec_data_type(&self, expr: Expr) -> Result<DataType, DataFusionError> {
        type_in(self.spec_schema(), expr)
    }

    open spec fn spec_original_type_info(&self, column: Column) -> Result<
        Option<OriginalTypeInfo>,
        DataFusionError,
    > {
        match self.spec_tracker() {
            Some(t) => match type_in(self.spec_schema(), Expr::Column(column)) {
                Ok(current) => Ok(t.spec_original_type_info(column, current)),
                Err(e) => Err(e),
            },
            None => Ok(None),
        }
    }

    open spec fn spec_is_originally_small_int(&self, expr: Expr) -> Result<bool, DataFusionError> {
        originally_small_int_in(self.spec_schema(), self.spec_tracker(), expr)
    }

    /// Returns true if this Expr has boolean type
    fn is_boolean_type(&self, expr: &Expr) -> (r: Result<bool, DataFusionError>) {
        if let Some(schema) = &self.schema {
            if let Ok(DataType::Boolean) = expr.get_type(schema) {
                return Ok(true);
            }
        }
        Ok(false)
    }

    /// Returns true if expr is nullable
    fn nullable(&self, expr: &Expr) -> (r: Result<bool, DataFusionError>) {
        match &self.schema {
            Some(schema) => expr.nullable(schema),
            None => Err(DataFusionError::MissingSchema),
        }
    }

    fn execution_props(&self) -> (r: &ExecutionProps)
        ensures
            *r == self.spec_props(),
    {
        self.props
    }

    /// Returns data type of this expr needed for determining optimized int type of a value
    fn get_data_type(&self, expr: &Expr) -> (r: Result<DataType, DataFusionError>) {
        match &self.schema {
            Some(schema) => expr.get_type(schema),
            None => Err(DataFusionError::MissingSchema),
        }
    }

    fn get_original_type_info(&self, column: &Column) -> (r: Result<
        Option<OriginalTypeInfo>,
        DataFusionError,
    >) {
        if let Some(tracker) = &self.original_type_tracker {
            // Get current type first
            let current_type = match &self.schema {
                Some(schema) => schema.column_type(column)?,
                None => {
                    return Err(DataFusionError::MissingSchema);
                },
            };
            Ok(tracker.get_original_type_info(column, &current_type))
        } else {
            Ok(None)
        }
    }

    fn is_originally_small_int(&self, expr: &Expr) -> (r: Result<bool, DataFusionError>) {
        self.is_originally_small_int_rec(expr)
    }
}

/// A column that the context reports as originally of a small integer type, and whose
/// current type is a signed integer type wider than its original type, has in its
/// current type room for the sum and the difference of any two values of its
/// original type; in particular `a < a + 1` holds for every original value `a`
/// without overflow.
pub proof fn lemma_small_int_column_arithmetic_fits(
    ctx: SimplifyContext,
    c: Column,
    original: DataType,
    current: DataType,
    a: int,
    b: int,
)
    requires
        ctx.spec_is_originally_small_int(Expr::Column(c)) == Ok::<bool, DataFusionError>(true),
        ctx.spec_tracker() matches Some(t) && t.spec_original_type(c) == Some(original),
        ctx.spec_data_type(Expr::Column(c)) == Ok::<DataType, DataFusionError>(current),
        spec_is_signed_int(current),
        signed_width(original) < signed_width(current),
    ensures
        spec_is_small_int(original),
        original != current,
        in_int_range(original, a) && in_int_range(original, b) ==> in_int_range(current, a + b)
            && in_int_range(current, a - b),
        in_int_range(original, a) ==> in_int_range(current, a + 1) && a < a + 1,
{
    if in_int_range(original, a) && in_int_range(original, b) {
        lemma_widened_sum_fits(original, current, a, b);
    }
    if in_int_range(original, a) {
        lemma_widened_sum_fits(original, current, a, 1);
    }
}

/// An alias or a cast is originally a small integer exactly when the expression under
/// it is.
pub proof fn lemma_alias_and_cast_answer_as_their_operand(ctx: SimplifyContext, a: Alias, c: Cast)
    ensures
        ctx.spec_is_originally_small_int(Expr::Alias(a)) == ctx.spec_is_originally_small_int(
            *a.expr,
        ),
        ctx.spec_is_originally_small_int(Expr::Cast(c)) == ctx.spec_is_originally_small_int(
            *c.expr,
        ),
{
}

/// With a tracker, a column whose current type is known is originally a small integer
/// exactly when the tracker recorded it as Int8, Int16 or Int32 and its current type
/// differs from that; without a tracker no column is.
pub proof fn lemma_column_is_originally_small_int(ctx: SimplifyContext, col: Column, current: DataType)
    requires
        ctx.spec_data_type(Expr::Column(col)) == Ok::<DataType, DataFusionError>(current),
    ensures
        ctx.spec_tracker() matches Some(t) ==> ctx.spec_is_originally_small_int(Expr::Column(col))
            == Ok::<bool, DataFusionError>(
            t.spec_original_type(col) matches Some(o) && (o == DataType::Int8 || o == DataType::Int16
                || o == DataType::Int32) && o != current,
        ),
        ctx.spec_tracker() is None ==> ctx.spec_is_originally_small_int(Expr::Column(col)) == Ok::<
            bool,
            DataFusionError,
        >(false),
{
}

/// A literal, a negation or a binary expression is never originally a small integer.
pub proof fn lemma_other_expressions_are_not_originally_small_int(ctx: SimplifyContext, e: Expr)
    requires
        e is Literal || e is Negative || e is BinaryExpr,
    ensures
        ctx.spec_is_originally_small_int(e) == Ok::<bool, DataFusionError>(false),
{
}

} // verus!
