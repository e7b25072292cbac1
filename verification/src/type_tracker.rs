//! Original type tracking for safe overflow optimization.
use vstd::prelude::*;
use vstd::hash_map::StringHashMap;

use crate::column::{column_key, opt_string_view, opt_table_text, Column};
use crate::data_type::{is_small_int, spec_is_small_int, DataType};
use crate::error::DataFusionError;

verus! {

/// Information about original types available during simplification.
#[derive(Clone, Copy, Debug, PartialEq, Eq, Structural)]
pub struct OriginalTypeInfo {
    /// Original type before any coercion
    pub original_type: DataType,
    /// Current coerced type (after type coercion)
    pub current_type: DataType,
    /// Whether the type was coerced (promoted)
    pub was_coerced: bool,
}

/// The information describing a column of type `original` that now has type `current`.
pub open spec fn spec_type_info(original: DataType, current: DataType) -> OriginalTypeInfo {
    OriginalTypeInfo {
        original_type: original,
        current_type: current,
        was_coerced: original != current,
    }
}

impl OriginalTypeInfo {
    /// Create new original type info.
    pub fn new(original_type: DataType, current_type: DataType) -> (r: Self)
        ensures
            r == spec_type_info(original_type, current_type),
    {
        Self { was_coerced: original_type != current_type, original_type, current_type }
    }

    /// Check if this was originally a small integer type (Int8/16/32).
    pub fn is_originally_small_int(&self) -> (r: bool)
        ensures
            r == spec_is_small_int(self.original_type),
    {
        is_small_int(&self.original_type)
    }
}

/// The key of a tracked column: its table name, if any, and its column name.
pub type ColumnKey = (Option<Seq<char>>, Seq<char>);

/// One tracked column and its original type.
struct ColumnTypeEntry {
    table: Option<String>,
    column: String,
    data_type: DataType,
}

spec fn entry_key(e: ColumnTypeEntry) -> ColumnKey {
    (opt_string_view(e.table), e.column@)
}

/// Tracks original column types before type coercion.
pub struct OriginalTypeTracker {
    /// Original column types, at most one entry per (table_name, column_name).
    original_types: Vec<ColumnTypeEntry>,
    /// Original types of expressions, by unique identifier.
    expression_types: StringHashMap<DataType>,
}

fn opt_string_eq(a: &Option<String>, b: &Option<String>) -> (r: bool)
    ensures
        r == (opt_string_view(*a) == opt_string_view(*b)),
{
    match (a, b) {
        (Some(x), Some(y)) => *x == *y,
        (None, None) => true,
        _ => false,
    }
}

proof fn lemma_index_of_distinct<A>(s: Seq<A>, j: int)
    requires
        s.no_duplicates(),
        0 <= j < s.len(),
    ensures
        s.index_of(s[j]) == j,
{
    assert(s.contains(s[j]));
}

impl OriginalTypeTracker {
    spec fn keys(&self) -> Seq<ColumnKey> {
        self.original_types@.map_values(|e: ColumnTypeEntry| entry_key(e))
    }

    #[verifier::type_invariant]
    spec fn distinct_keys(&self) -> bool {
        self.keys().no_duplicates()
    }

    /// The original type recorded for each tracked column key.
    pub closed spec fn column_types(&self) -> Map<ColumnKey, DataType> {
        Map::new(
            |k: ColumnKey| self.keys().contains(k),
            |k: ColumnKey| self.original_types@[self.keys().index_of(k)].data_type,
        )
    }

    /// The original type recorded for each expression identifier.
    pub closed spec fn expression_types(&self) -> Map<Seq<char>, DataType> {
        self.expression_types@
    }

    /// The original type recorded for the column `c`, if any.
    pub open spec fn spec_original_type(&self, c: Column) -> Option<DataType> {
        if self.column_types().contains_key(column_key(c)) {
            Some(self.column_types()[column_key(c)])
        } else {
            None
        }
    }

    /// The type information of the column `c`, now of type `current`, if its original
    /// type is recorded.
    pub open spec fn spec_original_type_info(&self, c: Column, current: DataType) -> Option<
        OriginalTypeInfo,
    > {
        match self.spec_original_type(c) {
            Some(original) => Some(spec_type_info(original, current)),
            None => None,
        }
    }

    /// The column `c` was recorded as a small integer type (Int8/16/32) and its type
    /// has since changed to `current`.
    pub open spec fn spec_was_promoted_from_small_int(&self, c: Column, current: DataType) -> bool {
        match self.spec_original_type(c) {
            Some(original) => spec_is_small_int(original) && original != current,
            None => false,
        }
    }

    /// The original type recorded for the expression `expr_id`, if any.
    pub open spec fn spec_expression_type(&self, expr_id: Seq<char>) -> Option<DataType> {
        if self.expression_types().contains_key(expr_id) {
            Some(self.expression_types()[expr_id])
        } else {
            None
        }
    }

    proof fn lemma_lookup(&self, i: int)
        requires
            self.distinct_keys(),
            0 <= i < self.original_types@.len(),
        ensures
            self.column_types().contains_key(self.keys()[i]),
            self.column_types()[self.keys()[i]] == self.original_types@[i].data_type,
    {
        let k = self.keys()[i];
        assert(self.keys().contains(k));
        let j = self.keys().index_of(k);
        assert(self.keys()[j] == k);
    }

    proof fn lemma_dom_is_key_set(&self)
        requires
            self.distinct_keys(),
        ensures
            self.column_types().dom() == self.keys().to_set(),
            self.column_types().dom().finite(),
            self.column_types().len() == self.original_types@.len(),
    {
        assert(self.column_types().dom() =~= self.keys().to_set());
        self.keys().unique_seq_to_set();
        vstd::seq_lib::seq_to_set_is_finite(self.keys());
    }

    /// Create a new empty type tracker.
    pub fn new() -> (r: Self)
        ensures
            r.column_types() == Map::<ColumnKey, DataType>::empty(),
            r.column_types().dom().finite(),
            r.expression_types() == Map::<Seq<char>, DataType>::empty(),
    {
        let r = Self { original_types: Vec::new(), expression_types: StringHashMap::new() };
        assert(r.column_types() =~= Map::<ColumnKey, DataType>::empty());
        r
    }

    fn find_column(&self, table: &Option<String>, column: &String) -> (r: Option<usize>)
        ensures
            match r {
                Some(i) => i < self.original_types@.len() && self.keys()[i as int] == (
                opt_string_view(*table), column@),
                None => !self.keys().contains((opt_string_view(*table), column@)),
            },
    {
        let n = self.original_types.len();
        let mut i: usize = 0;
        while i < n
            invariant
                n == self.original_types@.len(),
                0 <= i <= n,
                forall|j: int| 0 <= j < i ==> self.keys()[j] != (opt_string_view(*table), column@),
            decreases n - i,
        {
            let e = &self.original_types[i];
            if opt_string_eq(&e.table, table) && e.column == *column {
                return Some(i);
            }
            i = i + 1;
        }
        None
    }

    /// Record the original type for a column.
    pub fn record_original_type(
        &mut self,
        table_name: &Option<String>,
        column_name: &str,
        data_type: DataType,
    ) -> (r: Result<(), DataFusionError>)
        ensures
            r is Ok,
            final(self).column_types() == old(self).column_types().insert(
                (opt_string_view(*table_name), column_name@),
                data_type,
            ),
            final(self).column_types().dom().finite(),
            final(self).expression_types() == old(self).expression_types(),
    {
        proof {
            use_type_invariant(&*self);
            self.lemma_dom_is_key_set();
        }
        let table = match table_name {
            Some(t) => Some(t.clone()),
            None => None,
        };
        let column = String::from_str(column_name);
        let ghost k = (opt_string_view(*table_name), column_name@);
        let ghost before = self.column_types();
        let ghost old_keys = self.keys();
        let found = self.find_column(&table, &column);
        let entry = ColumnTypeEntry { table, column, data_type };
        assert(entry_key(entry) == k);
        let mut entries: Vec<ColumnTypeEntry> = Vec::new();
        std::mem::swap(&mut entries, &mut self.original_types);
        match found {
            Some(i) => {
                entries.set(i, entry);
                proof {
                    assert(entries@.map_values(|e: ColumnTypeEntry| entry_key(e)) =~= old_keys);
                }
            },
            None => {
                entries.push(entry);
                proof {
                    assert(entries@.map_values(|e: ColumnTypeEntry| entry_key(e)) =~= old_keys.push(
                        k,
                    ));
                }
            },
        }
        self.original_types = entries;
        proof {
            assert forall|k2: ColumnKey| #[trigger] self.column_types().contains_key(k2)
                == before.insert(k, data_type).contains_key(k2) by {
                if k2 != k && self.keys().contains(k2) {
                    let j = choose|j: int| 0 <= j < self.keys().len() && self.keys()[j] == k2;
                    assert(old_keys[j] == k2);
                }
                if k2 != k && old_keys.contains(k2) {
                    let j = choose|j: int| 0 <= j < old_keys.len() && old_keys[j] == k2;
                    assert(self.keys()[j] == k2);
                }
                if k2 == k {
                    match found {
                        Some(i) => assert(self.keys()[i as int] == k),
                        None => assert(self.keys()[old_keys.len() as int] == k),
                    }
                }
            }
            assert forall|k2: ColumnKey| #[trigger] self.column_types().contains_key(k2)
                implies self.column_types()[k2] == before.insert(k, data_type)[k2] by {
                let j = choose|j: int| 0 <= j < self.keys().len() && self.keys()[j] == k2;
                lemma_index_of_distinct(self.keys(), j);
                if k2 != k {
                    assert(old_keys[j] == k2);
                    lemma_index_of_distinct(old_keys, j);
                }
            }
            assert(self.column_types() =~= before.insert(k, data_type));
        }
        Ok(())
    }

    /// Get the original type for a column.
    pub fn get_original_type(&self, column: &Column) -> (r: Option<DataType>)
        ensures
            r == self.spec_original_type(*column),
    {
        proof {
            use_type_invariant(self);
        }
        let table_name = match &column.relation {
            Some(r) => Some(r.to_string()),
            None => None,
        };
        assert(opt_string_view(table_name) == opt_table_text(column.relation));
        match self.find_column(&table_name, &column.name) {
            Some(i) => {
                proof {
                    self.lemma_lookup(i as int);
                }
                Some(self.original_types[i].data_type)
            },
            None => None,
        }
    }

    /// Get original type info with current type comparison.
    pub fn get_original_type_info(&self, column: &Column, current_type: &DataType) -> (r: Option<
        OriginalTypeInfo,
    >)
        ensures
            r == self.spec_original_type_info(*column, *current_type),
    {
        if let Some(original_type) = self.get_original_type(column) {
            Some(OriginalTypeInfo::new(original_type, *current_type))
        } else {
            None
        }
    }

    /// Check if a column was originally a small integer type (Int8/16/32) whose type
    /// has since been coerced. If so, it's safe to optimize since we know its
    /// original bounds.
    pub fn was_promoted_from_small_int(&self, column: &Column, current_type: &DataType) -> (r:
        bool)
        ensures
            r == self.spec_was_promoted_from_small_int(*column, *current_type),
    {
        if let Some(original_type) = self.get_original_type(column) {
            is_small_int(&original_type) && original_type != *current_type
        } else {
            false
        }
    }

    /// Record the original type for an expression (by unique identifier).
    pub fn record_expression_type(&mut self, expr_id: &str, data_type: DataType) -> (r: Result<
        (),
        DataFusionError,
    >)
        ensures
            r is Ok,
            final(self).expression_types() == old(self).expression_types().insert(
                expr_id@,
                data_type,
            ),
            final(self).column_types() == old(self).column_types(),
            final(self).column_types().dom().finite(),
    {
        proof {
            use_type_invariant(&*self);
            self.lemma_dom_is_key_set();
        }
        let mut expression_types = StringHashMap::new();
        std::mem::swap(&mut expression_types, &mut self.expression_types);
        expression_types.insert(String::from_str(expr_id), data_type);
        self.expression_types = expression_types;
        Ok(())
    }

    /// Get the original type for an expression.
    pub fn get_expression_original_type(&self, expr_id: &str) -> (r: Option<DataType>)
        ensures
            r == self.spec_expression_type(expr_id@),
    {
        match self.expression_types.get(expr_id) {
            Some(t) => Some(*t),
            None => None,
        }
    }

    /// Clear all tracked types (useful for query boundaries).
    pub fn clear(&mut self)
        ensures
            final(self).column_types() == Map::<ColumnKey, DataType>::empty(),
            final(self).column_types().dom().finite(),
            final(self).expression_types() == Map::<Seq<char>, DataType>::empty(),
    {
        self.original_types = Vec::new();
        self.expression_types = StringHashMap::new();
        assert(self.column_types() =~= Map::<ColumnKey, DataType>::empty());
    }

    /// Get the number of tracked columns.
    pub fn len(&self) -> (r: usize)
        ensures
            r == self.column_types().len(),
            self.column_types().dom().finite(),
    {
        proof {
            use_type_invariant(self);
            self.lemma_dom_is_key_set();
        }
        self.original_types.len()
    }

    /// Check if any column types are tracked.
    pub fn is_empty(&self) -> (r: bool)
        ensures
            r == (self.column_types().len() == 0),
            self.column_types().dom().finite(),
    {
        proof {
            use_type_invariant(self);
            self.lemma_dom_is_key_set();
        }
        self.original_types.len() == 0
    }
}

impl Default for OriginalTypeTracker {
    fn default() -> (r: Self)
        ensures
            r.column_types() == Map::<ColumnKey, DataType>::empty(),
            r.column_types().dom().finite(),
            r.expression_types() == Map::<Seq<char>, DataType>::empty(),
    {
        Self::new()
    }
}

/// A column recorded under (table_name, column_name) is found again under that key
/// with the recorded type, and the recorded types of all other columns are unchanged.
pub proof fn lemma_get_returns_recorded_type(
    before: OriginalTypeTracker,
    after: OriginalTypeTracker,
    table_name: Option<Seq<char>>,
    column_name: Seq<char>,
    data_type: DataType,
    column: Column,
)
    requires
        after.column_types() == before.column_types().insert((table_name, column_name), data_type),
    ensures
        column_key(column) == (table_name, column_name) ==> after.spec_original_type(column)
            == Some(data_type),
        column_key(column) != (table_name, column_name) ==> after.spec_original_type(column)
            == before.spec_original_type(column),
{
}

/// An expression type recorded under an identifier is found again under it, and the
/// types of all other identifiers are unchanged.
pub proof fn lemma_get_returns_recorded_expression_type(
    before: OriginalTypeTracker,
    after: OriginalTypeTracker,
    expr_id: Seq<char>,
    data_type: DataType,
    other_id: Seq<char>,
)
    requires
        after.expression_types() == before.expression_types().insert(expr_id, data_type),
    ensures
        after.spec_expression_type(expr_id) == Some(data_type),
        other_id != expr_id ==> after.spec_expression_type(other_id) == before.spec_expression_type(
            other_id,
        ),
{
}

/// A cleared tracker knows no column and no expression, and counts no column.
pub proof fn lemma_cleared_tracker_knows_nothing(
    tracker: OriginalTypeTracker,
    column: Column,
    expr_id: Seq<char>,
)
    requires
        tracker.column_types() == Map::<ColumnKey, DataType>::empty(),
        tracker.expression_types() == Map::<Seq<char>, DataType>::empty(),
    ensures
        tracker.spec_original_type(column) is None,
        tracker.spec_expression_type(expr_id) is None,
        tracker.column_types().len() == 0,
{
}

/// A column reported as promoted from a small integer is one whose original type
/// information says it was a small integer and was coerced.
pub proof fn lemma_promoted_means_coerced_small_int(
    tracker: OriginalTypeTracker,
    column: Column,
    current_type: DataType,
)
    requires
        tracker.spec_was_promoted_from_small_int(column, current_type),
    ensures
        tracker.spec_original_type_info(column, current_type) matches Some(info) && info.was_coerced
            && spec_is_small_int(info.original_type),
{
}

/// A column is reported as promoted from a small integer exactly when it was recorded
/// as Int8, Int16 or Int32 and its current type differs from the recorded one.
pub proof fn lemma_promoted_exactly_when_small_int_changed(
    tracker: OriginalTypeTracker,
    column: Column,
    current: DataType,
)
    ensures
        tracker.spec_was_promoted_from_small_int(column, current) <==> (tracker.spec_original_type(
            column,
        ) matches Some(o) && (o == DataType::Int8 || o == DataType::Int16 || o == DataType::Int32)
            && o != current),
{
}

/// Recording a column key that was not tracked adds one to the number of tracked
/// columns; recording a tracked key again keeps that number: the number of tracked
/// columns is the number of distinct keys recorded.
pub proof fn lemma_record_counts_distinct_keys(
    before: OriginalTypeTracker,
    after: OriginalTypeTracker,
    key: ColumnKey,
    data_type: DataType,
)
    requires
        before.column_types().dom().finite(),
        after.column_types() == before.column_types().insert(key, data_type),
    ensures
        after.column_types().dom().finite(),
        after.column_types().len() == before.column_types().len() + if before.column_types().contains_key(
            key,
        ) {
            0int
        } else {
            1int
        },
{
    assert(after.column_types().dom() == before.column_types().dom().insert(key));
}

/// The set of column keys among a sequence of recordings.
pub open spec fn recorded_keys(writes: Seq<(ColumnKey, DataType)>) -> Set<ColumnKey> {
    writes.map_values(|w: (ColumnKey, DataType)| w.0).to_set()
}

/// Starting from a tracker that knows no column (a new or cleared tracker), after a
/// sequence of column recordings (expression recordings leave the column types as
/// they are), the tracked columns are exactly the keys recorded and their number is
/// the number of distinct keys recorded.
pub proof fn lemma_len_counts_keys_recorded_since_empty(
    states: Seq<OriginalTypeTracker>,
    writes: Seq<(ColumnKey, DataType)>,
)
    requires
        states.len() == writes.len() + 1,
        states[0].column_types() == Map::<ColumnKey, DataType>::empty(),
        forall|i: int|
            0 <= i < writes.len() ==> #[trigger] states[i + 1].column_types() == states[i].column_types().insert(
                writes[i].0,
                writes[i].1,
            ),
    ensures
        states.last().column_types().dom() == recorded_keys(writes),
        states.last().column_types().dom().finite(),
        states.last().column_types().len() == recorded_keys(writes).len(),
    decreases writes.len(),
{
    vstd::seq_lib::seq_to_set_is_finite(writes.map_values(|w: (ColumnKey, DataType)| w.0));
    if writes.len() == 0 {
        assert(recorded_keys(writes) =~= Set::<ColumnKey>::empty());
        assert(states.last().column_types().dom() =~= Set::<ColumnKey>::empty());
    } else {
        let n = writes.len() - 1;
        let ps = states.drop_last();
        let pw = writes.drop_last();
        assert forall|i: int| 0 <= i < pw.len() implies #[trigger] ps[i + 1].column_types()
            == ps[i].column_types().insert(pw[i].0, pw[i].1) by {
            assert(states[i + 1].column_types() == states[i].column_types().insert(
                writes[i].0,
                writes[i].1,
            ));
        }
        lemma_len_counts_keys_recorded_since_empty(ps, pw);
        assert(states[n + 1].column_types() == states[n].column_types().insert(
            writes[n].0,
            writes[n].1,
        ));
        let keys = writes.map_values(|w: (ColumnKey, DataType)| w.0);
        assert(keys =~= pw.map_values(|w: (ColumnKey, DataType)| w.0).push(writes[n].0));
        assert(recorded_keys(writes) =~= recorded_keys(pw).insert(writes[n].0)) by {
            assert forall|k: ColumnKey| recorded_keys(writes).contains(k) <==> recorded_keys(
                pw,
            ).insert(writes[n].0).contains(k) by {
                let pk = pw.map_values(|w: (ColumnKey, DataType)| w.0);
                if keys.contains(k) && k != writes[n].0 {
                    let j = choose|j: int| 0 <= j < keys.len() && keys[j] == k;
                    assert(pk[j] == k);
                }
                if pk.contains(k) {
                    let j = choose|j: int| 0 <= j < pk.len() && pk[j] == k;
                    assert(keys[j] == k);
                }
                if k == writes[n].0 {
                    assert(keys[n] == k);
                }
            }
        }
        assert(states.last().column_types().dom() =~= states[n].column_types().dom().insert(
            writes[n].0,
        ));
    }
}

} // verus!
