# overflow_safe

Support for overflow-safe folding of comparisons such as `a < a + 1`: the fold is
only correct when `a + 1` cannot overflow, which is known when a column was
originally of a small integer type (Int8/Int16/Int32) and has since been promoted
to a wider type, or when interval bounds show that an expression stays within its
type.

Verified with Verus (`src/`):

- `data_type` — the data types, their integer ranges, and widening.
- `column` — table references, columns, and the text keys of columns.
- `type_tracker` — `OriginalTypeTracker`, which records original column and
  expression types, and `OriginalTypeInfo`.
- `scalar`, `schema`, `expr` — scalar values, schemas with column resolution,
  expressions with their types and nullability.
- `simplify` — the `SimplifyInfo` trait and `SimplifyContext`.
- `interval`, `interval_laws` — integer interval arithmetic and its soundness.
- `interval_bound` — `integer_interval_for_expr` and the proof that the interval
  of an expression holds every value it can take when each column holds a value of
  its type and each cast's target type holds the bounds of its operand's interval.

`app/` is a small program that demonstrates the library with arrow data types.

`OriginalTypeTracker` records types through `&mut self` and is handed to a
`SimplifyContext` by value: types recorded after the context is built do not reach
it, and the tracker has no clone sharing its records.
