use vstd::prelude::*;

use crate::column::{same_table_ref, Column, TableReference};
use crate::data_type::DataType;
use crate::error::DataFusionError;

verus! {

/// A field of a schema: an optionally qualified name with a type and nullability.
#[derive(Clone, Debug)]
pub struct DFField {
    pub qualifier: Option<TableReference>,
    pub name: String,
    pub data_type: DataType,
    pub nullable: bool,
}

/// The fields available to expressions.
#[derive(Clone, Debug)]
pub struct DFSchema {
    pub fields: Vec<DFField>,
}

/// Whether the field `f` is a candidate for the column reference `c`: same name and,
/// where `c` is qualified, the same qualifier.
pub open spec fn field_matches(f: DFField, c: Column) -> bool {
    &&& f.name@ == c.name@
    &&& match c.relation {
        Some(q) => f.qualifier matches Some(fq) && same_table_ref(fq, q),
        None => true,
    }
}

/// The number of fields among `fields` that match `c`.
pub open spec fn match_count(fields: Seq<DFField>, c: Column) -> nat
    decreases fields.len(),
{
    if fields.len() == 0 {
        0
    } else {
        match_count(fields.drop_last(), c) + if field_matches(fields.last(), c) {
            1nat
        } else {
            0nat
        }
    }
}

/// The position of the first field among `fields` that matches `c`.
pub open spec fn first_match(fields: Seq<DFField>, c: Column) -> Option<int>
    decreases fields.len(),
{
    if fields.len() == 0 {
        None
    } else {
        match first_match(fields.drop_last(), c) {
            Some(i) => Some(i),
            None => if field_matches(fields.last(), c) {
                Some(fields.len() - 1)
            } else {
                None
            },
        }
    }
}

/// The position of the field that the column reference `c` resolves to: the first
/// matching field; an unqualified reference must match exactly one field.
pub open spec fn resolve_column(fields: Seq<DFField>, c: Column) -> Result<int, DataFusionError> {
    if match_count(fields, c) == 0 {
        Err(DataFusionError::FieldNotFound)
    } else if c.relation is None && match_count(fields, c) > 1 {
        Err(DataFusionError::AmbiguousReference)
    } else {
        Ok(first_match(fields, c).unwrap())
    }
}

proof fn lemma_first_match_bounds(fields: Seq<DFField>, c: Column)
    ensures
        first_match(fields, c) is Some <==> match_count(fields, c) > 0,
        first_match(fields, c) matches Some(i) ==> 0 <= i < fields.len() && field_matches(
            fields[i],
            c,
        ),
    decreases fields.len(),
{
    if fields.len() > 0 {
        lemma_first_match_bounds(fields.drop_last(), c);
    }
}

/// A resolved column reference designates a field of the schema that matches it.
pub proof fn lemma_resolved_field_matches(fields: Seq<DFField>, c: Column)
    ensures
        resolve_column(fields, c) matches Ok(i) ==> 0 <= i < fields.len() && field_matches(
            fields[i],
            c,
        ),
{
    lemma_first_match_bounds(fields, c);
}

fn field_matches_exec(f: &DFField, c: &Column) -> (r: bool)
    ensures
        r == field_matches(*f, *c),
{
    if f.name != c.name {
        return false;
    }
    match &c.relation {
        Some(q) => match &f.qualifier {
            Some(fq) => fq.same_as(q),
            None => false,
        },
        None => true,
    }
}

impl DFSchema {
    /// The position of the field that `column` resolves to.
    pub fn index_of_column(&self, column: &Column) -> (r: Result<usize, DataFusionError>)
        ensures
            match r {
                Ok(i) => resolve_column(self.fields@, *column) == Ok::<int, DataFusionError>(
                    i as int,
                ),
                Err(e) => resolve_column(self.fields@, *column) == Err::<int, DataFusionError>(e),
            },
    {
        let n = self.fields.len();
        let mut i: usize = 0;
        let mut count: usize = 0;
        let mut first: Option<usize> = None;
        while i < n
            invariant
                n == self.fields@.len(),
                0 <= i <= n,
                count == match_count(self.fields@.take(i as int), *column),
                count <= i,
                match first {
                    Some(j) => first_match(self.fields@.take(i as int), *column) == Some(j as int),
                    None => first_match(self.fields@.take(i as int), *column) is None,
                },
            decreases n - i,
        {
            proof {
                assert(self.fields@.take(i + 1).drop_last() =~= self.fields@.take(i as int));
                assert(self.fields@.take(i + 1).last() == self.fields@[i as int]);
            }
            if field_matches_exec(&self.fields[i], column) {
                count = count + 1;
                if first.is_none() {
                    first = Some(i);
                }
            }
            i = i + 1;
        }
        proof {
            assert(self.fields@.take(n as int) =~= self.fields@);
            lemma_first_match_bounds(self.fields@, *column);
        }
        if count == 0 {
            Err(DataFusionError::FieldNotFound)
        } else if column.relation.is_none() && count > 1 {
            Err(DataFusionError::AmbiguousReference)
        } else {
            match first {
                Some(j) => Ok(j),
                None => Err(DataFusionError::FieldNotFound),
            }
        }
    }
}

impl DFSchema {
    /// The type of the field that `column` resolves to.
    pub fn column_type(&self, column: &Column) -> (r: Result<DataType, DataFusionError>)
        ensures
            r == match resolve_column(self.fields@, *column) {
                Ok(i) => Ok(self.fields@[i].data_type),
                Err(e) => Err(e),
            },
    {
        proof {
            lemma_resolved_field_matches(self.fields@, *column);
        }
        let i = self.index_of_column(column)?;
        Ok(self.fields[i].data_type)
    }

    /// The nullability of the field that `column` resolves to.
    pub fn column_nullable(&self, column: &Column) -> (r: Result<bool, DataFusionError>)
        ensures
            r == match resolve_column(self.fields@, *column) {
                Ok(i) => Ok(self.fields@[i].nullable),
                Err(e) => Err(e),
            },
    {
        proof {
            lemma_resolved_field_matches(self.fields@, *column);
        }
        let i = self.index_of_column(column)?;
        Ok(self.fields[i].nullable)
    }
}

} // verus!
