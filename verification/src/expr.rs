use vstd::prelude::*;

use crate::column::{Column, TableReference};
use crate::data_type::{
    in_int_range, int_max, int_min, spec_is_integer_type, spec_is_signed_int, signed_width, DataType,
};
use crate::error::DataFusionError;
use crate::scalar::{scalar_is_null, scalar_type, ScalarValue};
use crate::schema::{resolve_column, DFSchema};

verus! {

/// Binary operators.
#[derive(Clone, Copy, Debug, PartialEq, Eq, Structural)]
pub enum Operator {
    Eq,
    NotEq,
    Lt,
    LtEq,
    Gt,
    GtEq,
    Plus,
    Minus,
    Multiply,
    Divide,
    Modulo,
    And,
    Or,
}

/// An expression given another name.
#[derive(Debug)]
pub struct Alias {
    pub expr: Box<Expr>,
    pub relation: Option<TableReference>,
    pub name: String,
}

/// A conversion of an expression's value to another type.
#[derive(Debug)]
pub struct Cast {
    pub expr: Box<Expr>,
    pub data_type: DataType,
}

/// A binary operation.
#[derive(Debug)]
pub struct BinaryExpr {
    pub left: Box<Expr>,
    pub op: Operator,
    pub right: Box<Expr>,
}

/// Expressions.
#[derive(Debug)]
pub enum Expr {
    Column(Column),
    Literal(ScalarValue),
    Alias(Alias),
    Negative(Box<Expr>),
    Cast(Cast),
    BinaryExpr(BinaryExpr),
}

/// Was the expression simplified?
#[derive(Debug)]
pub enum ExprSimplifyResult {
    /// The function call was simplified to an entirely new Expr
    Simplified(Expr),
    /// The function call could not be simplified, and the arguments
    /// are return unmodified.
    Original(Vec<Expr>),
}

/// Bit width of an unsigned integer type.
pub open spec fn unsigned_width(dt: DataType) -> int {
    match dt {
        DataType::UInt8 => 8,
        DataType::UInt16 => 16,
        DataType::UInt32 => 32,
        DataType::UInt64 => 64,
        _ => 0,
    }
}

/// The signed integer type of a bit width.
pub open spec fn signed_of_width(w: int) -> DataType {
    if w <= 8 {
        DataType::Int8
    } else if w <= 16 {
        DataType::Int16
    } else if w <= 32 {
        DataType::Int32
    } else {
        DataType::Int64
    }
}

/// The unsigned integer type of a bit width.
pub open spec fn unsigned_of_width(w: int) -> DataType {
    if w <= 8 {
        DataType::UInt8
    } else if w <= 16 {
        DataType::UInt16
    } else if w <= 32 {
        DataType::UInt32
    } else {
        DataType::UInt64
    }
}

pub open spec fn max_int(a: int, b: int) -> int {
    if a >= b {
        a
    } else {
        b
    }
}

/// The type that an arithmetic operation on operands of types `l` and `r` produces:
/// the narrowest integer type holding every value of both.
pub open spec fn arithmetic_coercion(l: DataType, r: DataType) -> Result<DataType, DataFusionError> {
    if l == DataType::Null && (r == DataType::Null || spec_is_integer_type(r)) {
        Ok(r)
    } else if r == DataType::Null && spec_is_integer_type(l) {
        Ok(l)
    } else if spec_is_signed_int(l) && spec_is_signed_int(r) {
        Ok(signed_of_width(max_int(signed_width(l), signed_width(r))))
    } else if unsigned_width(l) > 0 && unsigned_width(r) > 0 {
        Ok(unsigned_of_width(max_int(unsigned_width(l), unsigned_width(r))))
    } else if spec_is_signed_int(l) && unsigned_width(r) > 0 && unsigned_width(r) < 64 {
        Ok(signed_of_width(max_int(signed_width(l), 2 * unsigned_width(r))))
    } else if unsigned_width(l) > 0 && unsigned_width(l) < 64 && spec_is_signed_int(r) {
        Ok(signed_of_width(max_int(2 * unsigned_width(l), signed_width(r))))
    } else {
        Err(DataFusionError::TypeMismatch)
    }
}

/// Whether the operator compares its operands.
pub open spec fn is_comparison(op: Operator) -> bool {
    matches!(op, Operator::Eq | Operator::NotEq | Operator::Lt | Operator::LtEq | Operator::Gt | Operator::GtEq)
}

/// The type of the result of applying `op` to operands of types `l` and `r`.
pub open spec fn binary_result_type(l: DataType, op: Operator, r: DataType) -> Result<
    DataType,
    DataFusionError,
> {
    if is_comparison(op) {
        if l == r || l == DataType::Null || r == DataType::Null || (spec_is_integer_type(l)
            && spec_is_integer_type(r)) {
            Ok(DataType::Boolean)
        } else {
            Err(DataFusionError::TypeMismatch)
        }
    } else if op == Operator::And || op == Operator::Or {
        if (l == DataType::Boolean || l == DataType::Null) && (r == DataType::Boolean || r
            == DataType::Null) {
            Ok(DataType::Boolean)
        } else {
            Err(DataFusionError::TypeMismatch)
        }
    } else {
        arithmetic_coercion(l, r)
    }
}

/// The type of an expression over the fields of a schema.
pub open spec fn spec_expr_type(e: Expr, fields: Seq<crate::schema::DFField>) -> Result<
    DataType,
    DataFusionError,
>
    decreases e,
{
    match e {
        Expr::Column(c) => match resolve_column(fields, c) {
            Ok(i) => Ok(fields[i].data_type),
            Err(err) => Err(err),
        },
        Expr::Literal(v) => Ok(scalar_type(v)),
        Expr::Alias(a) => spec_expr_type(*a.expr, fields),
        Expr::Negative(x) => spec_expr_type(*x, fields),
        Expr::Cast(c) => Ok(c.data_type),
        Expr::BinaryExpr(b) => match spec_expr_type(*b.left, fields) {
            Err(err) => Err(err),
            Ok(l) => match spec_expr_type(*b.right, fields) {
                Err(err) => Err(err),
                Ok(r) => binary_result_type(l, b.op, r),
            },
        },
    }
}

/// Whether an expression over the fields of a schema can be null.
pub open spec fn spec_expr_nullable(e: Expr, fields: Seq<crate::schema::DFField>) -> Result<
    bool,
    DataFusionError,
>
    decreases e,
{
    match e {
        Expr::Column(c) => match resolve_column(fields, c) {
            Ok(i) => Ok(fields[i].nullable),
            Err(err) => Err(err),
        },
        Expr::Literal(v) => Ok(scalar_is_null(v)),
        Expr::Alias(a) => spec_expr_nullable(*a.expr, fields),
        Expr::Negative(x) => spec_expr_nullable(*x, fields),
        Expr::Cast(c) => spec_expr_nullable(*c.expr, fields),
        Expr::BinaryExpr(b) => match spec_expr_nullable(*b.left, fields) {
            Err(err) => Err(err),
            Ok(l) => match spec_expr_nullable(*b.right, fields) {
                Err(err) => Err(err),
                Ok(r) => Ok(l || r),
            },
        },
    }
}

fn signed_width_of(dt: &DataType) -> (r: u8)
    ensures
        r as int == signed_width(*dt),
{
    match dt {
        DataType::Int8 => 8,
        DataType::Int16 => 16,
        DataType::Int32 => 32,
        DataType::Int64 => 64,
        _ => 0,
    }
}

fn unsigned_width_of(dt: &DataType) -> (r: u8)
    ensures
        r as int == unsigned_width(*dt),
{
    match dt {
        DataType::UInt8 => 8,
        DataType::UInt16 => 16,
        DataType::UInt32 => 32,
        DataType::UInt64 => 64,
        _ => 0,
    }
}

fn signed_of(w: u8) -> (r: DataType)
    ensures
        r == signed_of_width(w as int),
{
    if w <= 8 {
        DataType::Int8
    } else if w <= 16 {
        DataType::Int16
    } else if w <= 32 {
        DataType::Int32
    } else {
        DataType::Int64
    }
}

fn unsigned_of(w: u8) -> (r: DataType)
    ensures
        r == unsigned_of_width(w as int),
{
    if w <= 8 {
        DataType::UInt8
    } else if w <= 16 {
        DataType::UInt16
    } else if w <= 32 {
        DataType::UInt32
    } else {
        DataType::UInt64
    }
}

fn max_u8(a: u8, b: u8) -> (r: u8)
    ensures
        r as int == max_int(a as int, b as int),
{
    if a >= b {
        a
    } else {
        b
    }
}

/// The type that an arithmetic operation on operands of types `l` and `r` produces.
pub fn coerce_arithmetic(l: &DataType, r: &DataType) -> (res: Result<DataType, DataFusionError>)
    ensures
        res == arithmetic_coercion(*l, *r),
{
    let sl = signed_width_of(l);
    let sr = signed_width_of(r);
    let ul = unsigned_width_of(l);
    let ur = unsigned_width_of(r);
    let l_int = sl > 0 || ul > 0;
    let r_int = sr > 0 || ur > 0;
    if *l == DataType::Null && (*r == DataType::Null || r_int) {
        Ok(*r)
    } else if *r == DataType::Null && l_int {
        Ok(*l)
    } else if sl > 0 && sr > 0 {
        Ok(signed_of(max_u8(sl, sr)))
    } else if ul > 0 && ur > 0 {
        Ok(unsigned_of(max_u8(ul, ur)))
    } else if sl > 0 && ur > 0 && ur < 64 {
        Ok(signed_of(max_u8(sl, 2 * ur)))
    } else if ul > 0 && ul < 64 && sr > 0 {
        Ok(signed_of(max_u8(2 * ul, sr)))
    } else {
        Err(DataFusionError::TypeMismatch)
    }
}

/// The type of the result of applying `op` to operands of types `l` and `r`.
pub fn binary_type(l: &DataType, op: Operator, r: &DataType) -> (res: Result<
    DataType,
    DataFusionError,
>)
    ensures
        res == binary_result_type(*l, op, *r),
{
    match op {
        Operator::Eq | Operator::NotEq | Operator::Lt | Operator::LtEq | Operator::Gt
        | Operator::GtEq => {
            let l_int = signed_width_of(l) > 0 || unsigned_width_of(l) > 0;
            let r_int = signed_width_of(r) > 0 || unsigned_width_of(r) > 0;
            if *l == *r || *l == DataType::Null || *r == DataType::Null || (l_int && r_int) {
                Ok(DataType::Boolean)
            } else {
                Err(DataFusionError::TypeMismatch)
            }
        },
        Operator::And | Operator::Or => {
            if (*l == DataType::Boolean || *l == DataType::Null) && (*r == DataType::Boolean || *r
                == DataType::Null) {
                Ok(DataType::Boolean)
            } else {
                Err(DataFusionError::TypeMismatch)
            }
        },
        _ => coerce_arithmetic(l, r),
    }
}

impl Expr {
    /// The type of this expression over the fields of `schema`.
    pub fn get_type(&self, schema: &DFSchema) -> (r: Result<DataType, DataFusionError>)
        ensures
            r == spec_expr_type(*self, schema.fields@),
        decreases *self,
    {
        match self {
            Expr::Column(c) => schema.column_type(c),
            Expr::Literal(v) => Ok(v.data_type()),
            Expr::Alias(a) => a.expr.get_type(schema),
            Expr::Negative(x) => x.get_type(schema),
            Expr::Cast(c) => Ok(c.data_type),
            Expr::BinaryExpr(b) => {
                let l = b.left.get_type(schema)?;
                let r = b.right.get_type(schema)?;
                binary_type(&l, b.op, &r)
            },
        }
    }

    /// Whether this expression over the fields of `schema` can be null.
    pub fn nullable(&self, schema: &DFSchema) -> (r: Result<bool, DataFusionError>)
        ensures
            r == spec_expr_nullable(*self, schema.fields@),
        decreases *self,
    {
        match self {
            Expr::Column(c) => schema.column_nullable(c),
            Expr::Literal(v) => Ok(v.is_null()),
            Expr::Alias(a) => a.expr.nullable(schema),
            Expr::Negative(x) => x.nullable(schema),
            Expr::Cast(c) => c.expr.nullable(schema),
            Expr::BinaryExpr(b) => {
                let l = b.left.nullable(schema)?;
                let r = b.right.nullable(schema)?;
                Ok(l || r)
            },
        }
    }
}

/// The integer type `s` holds every value of the integer type `l`.
pub open spec fn holds_all_values_of(s: DataType, l: DataType) -> bool {
    spec_is_integer_type(s) && int_min(s) <= int_min(l) && int_max(l) <= int_max(s)
}

/// Arithmetic on two integer types gives the narrowest integer type that holds every
/// value of both; where no integer type holds both, the types mismatch.
pub proof fn lemma_arithmetic_type_is_narrowest_holding_both(l: DataType, r: DataType)
    requires
        spec_is_integer_type(l),
        spec_is_integer_type(r),
    ensures
        arithmetic_coercion(l, r) is Ok ==> holds_all_values_of(arithmetic_coercion(l, r).unwrap(), l)
            && holds_all_values_of(arithmetic_coercion(l, r).unwrap(), r),
        arithmetic_coercion(l, r) is Ok ==> forall|v: int|
            (in_int_range(l, v) || in_int_range(r, v)) ==> in_int_range(
                arithmetic_coercion(l, r).unwrap(),
                v,
            ),
        arithmetic_coercion(l, r) is Ok ==> forall|s: DataType|
            holds_all_values_of(s, l) && holds_all_values_of(s, r) ==> int_min(s) <= int_min(
                arithmetic_coercion(l, r).unwrap(),
            ) && int_max(arithmetic_coercion(l, r).unwrap()) <= int_max(s),
        arithmetic_coercion(l, r) is Err ==> arithmetic_coercion(l, r) == Err::<
            DataType,
            DataFusionError,
        >(DataFusionError::TypeMismatch) && forall|s: DataType|
            !(holds_all_values_of(s, l) && holds_all_values_of(s, r)),
{
}

/// The type of an arithmetic expression on operands of integer types is the type of
/// arithmetic on those types; a comparison has boolean type.
pub proof fn lemma_binary_expr_type(be: BinaryExpr, fields: Seq<crate::schema::DFField>, l: DataType, r: DataType)
    requires
        spec_expr_type(*be.left, fields) == Ok::<DataType, DataFusionError>(l),
        spec_expr_type(*be.right, fields) == Ok::<DataType, DataFusionError>(r),
        spec_is_integer_type(l),
        spec_is_integer_type(r),
    ensures
        (be.op == Operator::Plus || be.op == Operator::Minus || be.op == Operator::Multiply || be.op
            == Operator::Divide || be.op == Operator::Modulo) ==> spec_expr_type(
            Expr::BinaryExpr(be),
            fields,
        ) == arithmetic_coercion(l, r),
        is_comparison(be.op) ==> spec_expr_type(Expr::BinaryExpr(be), fields) == Ok::<
            DataType,
            DataFusionError,
        >(DataType::Boolean),
{
}

} // verus!
