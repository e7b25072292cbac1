use vstd::prelude::*;

verus! {

/// A reference to a table: bare, qualified by a schema, or fully qualified.
#[derive(Clone, Debug)]
pub enum TableReference {
    Bare { table: String },
    Partial { schema: String, table: String },
    Full { catalog: String, schema: String, table: String },
}

/// The text of a table reference: its parts joined by '.'.
pub open spec fn table_ref_text(r: TableReference) -> Seq<char> {
    match r {
        TableReference::Bare { table } => table@,
        TableReference::Partial { schema, table } => schema@ + seq!['.'] + table@,
        TableReference::Full { catalog, schema, table } => catalog@ + seq!['.'] + schema@
            + seq!['.'] + table@,
    }
}

/// Two table references name the same table: same form, same parts.
pub open spec fn same_table_ref(a: TableReference, b: TableReference) -> bool {
    match (a, b) {
        (TableReference::Bare { table: t1 }, TableReference::Bare { table: t2 }) => t1@ == t2@,
        (
            TableReference::Partial { schema: s1, table: t1 },
            TableReference::Partial { schema: s2, table: t2 },
        ) => s1@ == s2@ && t1@ == t2@,
        (
            TableReference::Full { catalog: c1, schema: s1, table: t1 },
            TableReference::Full { catalog: c2, schema: s2, table: t2 },
        ) => c1@ == c2@ && s1@ == s2@ && t1@ == t2@,
        _ => false,
    }
}

/// The view of an optional table reference: the text of the reference, if any.
pub open spec fn opt_table_text(r: Option<TableReference>) -> Option<Seq<char>> {
    match r {
        Some(t) => Some(table_ref_text(t)),
        None => None,
    }
}

/// The view of an optional string.
pub open spec fn opt_string_view(s: Option<String>) -> Option<Seq<char>> {
    match s {
        Some(t) => Some(t@),
        None => None,
    }
}

fn join_dot(left: String, right: &str) -> (r: String)
    ensures
        r@ == left@ + seq!['.'] + right@,
{
    let dot = ".";
    proof {
        reveal_strlit(".");
    }
    let with_dot = left.concat(dot);
    with_dot.concat(right)
}

impl TableReference {
    /// The text of this reference, its parts joined by '.'.
    pub fn to_string(&self) -> (r: String)
        ensures
            r@ == table_ref_text(*self),
    {
        match self {
            TableReference::Bare { table } => table.clone(),
            TableReference::Partial { schema, table } => join_dot(schema.clone(), table.as_str()),
            TableReference::Full { catalog, schema, table } => {
                let cs = join_dot(catalog.clone(), schema.as_str());
                join_dot(cs, table.as_str())
            },
        }
    }

    /// Whether the two references name the same table.
    pub fn same_as(&self, other: &TableReference) -> (r: bool)
        ensures
            r == same_table_ref(*self, *other),
    {
        match (self, other) {
            (TableReference::Bare { table: t1 }, TableReference::Bare { table: t2 }) => *t1 == *t2,
            (
                TableReference::Partial { schema: s1, table: t1 },
                TableReference::Partial { schema: s2, table: t2 },
            ) => *s1 == *s2 && *t1 == *t2,
            (
                TableReference::Full { catalog: c1, schema: s1, table: t1 },
                TableReference::Full { catalog: c2, schema: s2, table: t2 },
            ) => *c1 == *c2 && *s1 == *s2 && *t1 == *t2,
            _ => false,
        }
    }
}

/// A reference to a column, optionally qualified by the table it belongs to.
#[derive(Clone, Debug)]
pub struct Column {
    pub relation: Option<TableReference>,
    pub name: String,
}

/// The key under which a column is tracked: the text of its relation, if any,
/// and its name.
pub open spec fn column_key(c: Column) -> (Option<Seq<char>>, Seq<char>) {
    (opt_table_text(c.relation), c.name@)
}

/// The text of a column key: "relation.name", or the bare name.
pub open spec fn column_key_text(c: Column) -> Seq<char> {
    match c.relation {
        Some(r) => table_ref_text(r) + seq!['.'] + c.name@,
        None => c.name@,
    }
}

/// The position of the last occurrence of `ch` in `s`, if any.
pub open spec fn last_index_of(s: Seq<char>, ch: char) -> Option<int>
    decreases s.len(),
{
    if s.len() == 0 {
        None
    } else if s.last() == ch {
        Some(s.len() - 1)
    } else {
        last_index_of(s.drop_last(), ch)
    }
}

/// The view of the result of splitting a key at its last '.'.
pub open spec fn parsed_key(key: Seq<char>) -> (Option<Seq<char>>, Seq<char>) {
    match last_index_of(key, '.') {
        Some(i) => (Some(key.subrange(0, i)), key.subrange(i + 1, key.len() as int)),
        None => (None, key),
    }
}

/// Extract a unique key for a column reference.
/// Format: "table_name.column_name" or just "column_name" if no table.
pub fn column_to_key(column: &Column) -> (r: String)
    ensures
        r@ == column_key_text(*column),
{
    match &column.relation {
        Some(relation) => join_dot(relation.to_string(), column.name.as_str()),
        None => column.name.clone(),
    }
}

/// Parse a column key back into table and column components, splitting at
/// the last '.'.
pub fn parse_column_key(key: &str) -> (r: (Option<String>, String))
    ensures
        (opt_string_view(r.0), r.1@) == parsed_key(key@),
{
    let n = key.unicode_len();
    let mut i: usize = n;
    let mut found = false;
    assert(key@.subrange(0, n as int) =~= key@);
    while i > 0
        invariant_except_break
            n == key@.len(),
            i <= n,
            !found,
            last_index_of(key@, '.') == last_index_of(key@.subrange(0, i as int), '.'),
        ensures
            n == key@.len(),
            i <= n,
            found ==> 0 < i && last_index_of(key@, '.') == Some(i - 1),
            !found ==> last_index_of(key@, '.') == last_index_of(key@.subrange(0, i as int), '.'),
            !found ==> i == 0,
        decreases i,
    {
        assert(key@.subrange(0, i as int).last() == key@[i - 1]);
        if key.get_char(i - 1) == '.' {
            found = true;
            break;
        }
        proof {
            assert(key@.subrange(0, i - 1) =~= key@.subrange(0, i as int).drop_last());
        }
        i = i - 1;
    }
    if found {
        let table = key.substring_char(0, i - 1);
        let column = key.substring_char(i, n);
        (Some(String::from_str(table)), String::from_str(column))
    } else {
        proof {
            assert(key@.subrange(0, 0) =~= Seq::<char>::empty());
            assert(last_index_of(key@, '.') is None);
        }
        (None, String::from_str(key))
    }
}

proof fn lemma_last_index_of_is_last(s: Seq<char>, ch: char)
    ensures
        last_index_of(s, ch) matches Some(i) ==> 0 <= i < s.len() && s[i] == ch && forall|k: int|
            i < k < s.len() ==> s[k] != ch,
        last_index_of(s, ch) is None ==> forall|k: int| 0 <= k < s.len() ==> s[k] != ch,
    decreases s.len(),
{
    if s.len() > 0 {
        lemma_last_index_of_is_last(s.drop_last(), ch);
        assert forall|k: int| 0 <= k < s.len() - 1 implies s.drop_last()[k] == s[k] by {}
    }
}

/// Parsing a key that holds a '.' gives the part before its last '.' as the table and
/// the part after it, which holds no '.', as the column: the key is table + "." +
/// column; a key without '.' is the column, with no table.
pub proof fn lemma_parse_column_key_splits_at_last_dot(key: Seq<char>)
    ensures
        key.contains('.') ==> parsed_key(key).0 is Some && key == parsed_key(key).0.unwrap()
            + seq!['.'] + parsed_key(key).1 && !parsed_key(key).1.contains('.'),
        !key.contains('.') ==> parsed_key(key) == (None::<Seq<char>>, key),
{
    lemma_last_index_of_is_last(key, '.');
    if let Some(i) = last_index_of(key, '.') {
        assert(key =~= key.subrange(0, i) + seq!['.'] + key.subrange(i + 1, key.len() as int));
        let tail = key.subrange(i + 1, key.len() as int);
        assert forall|k: int| 0 <= k < tail.len() implies tail[k] != '.' by {
            assert(tail[k] == key[i + 1 + k]);
        }
    } else {
        if key.contains('.') {
            let k = choose|k: int| 0 <= k < key.len() && key[k] == '.';
            assert(key[k] != '.');
        }
    }
}

proof fn lemma_last_index_of_suffix_without(p: Seq<char>, n: Seq<char>, ch: char)
    requires
        !n.contains(ch),
    ensures
        last_index_of(p + n, ch) == last_index_of(p, ch),
    decreases n.len(),
{
    if n.len() > 0 {
        assert((p + n).last() == n.last());
        assert((p + n).drop_last() =~= p + n.drop_last());
        assert(!n.drop_last().contains(ch)) by {
            if n.drop_last().contains(ch) {
                let k = choose|k: int| 0 <= k < n.drop_last().len() && n.drop_last()[k] == ch;
                assert(n[k] == ch);
            }
        }
        assert(n[n.len() - 1] != ch);
        lemma_last_index_of_suffix_without(p, n.drop_last(), ch);
    } else {
        assert(p + n =~= p);
    }
}

/// Splitting the key of a column whose name holds no '.' at its last '.' gives back
/// the text of the column's relation and the column's name.
pub proof fn lemma_parse_column_key_inverts_column_to_key(c: Column)
    requires
        !c.name@.contains('.'),
    ensures
        parsed_key(column_key_text(c)) == column_key(c),
{
    match c.relation {
        Some(r) => {
            let t = table_ref_text(r);
            let p = t + seq!['.'];
            lemma_last_index_of_suffix_without(p, c.name@, '.');
            assert(p.drop_last() =~= t);
            assert(last_index_of(p, '.') == Some(t.len() as int));
            let key = p + c.name@;
            assert(key.subrange(0, t.len() as int) =~= t);
            assert(key.subrange(t.len() as int + 1, key.len() as int) =~= c.name@);
        },
        None => {
            lemma_last_index_of_suffix_without(Seq::empty(), c.name@, '.');
            assert(Seq::<char>::empty() + c.name@ =~= c.name@);
        },
    }
}

} // verus!
