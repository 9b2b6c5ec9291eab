//! API values and the ordered row objects that hold them.

use vstd::prelude::*;
use indexmap::IndexMap;

verus! {

/// A value of the API: nothing, an integer, a floating-point number, a text
/// or a boolean. A floating-point number is held as the bits of its IEEE 754
/// binary64 encoding.
#[derive(Debug, PartialEq, Eq)]
pub enum Value {
    Null,
    Integer(i64),
    Float(u64),
    String(String),
    Boolean(bool),
}

/// An API value in contracts.
pub enum ValueView {
    Null,
    Integer(int),
    Float(u64),
    String(Seq<char>),
    Boolean(bool),
}

impl View for Value {
    type V = ValueView;

    open spec fn view(&self) -> ValueView {
        match self {
            Value::Null => ValueView::Null,
            Value::Integer(i) => ValueView::Integer(*i as int),
            Value::Float(bits) => ValueView::Float(*bits),
            Value::String(s) => ValueView::String(s@),
            Value::Boolean(b) => ValueView::Boolean(*b),
        }
    }
}

impl Clone for Value {
    /// A copy of this value.
    fn clone(&self) -> (v: Value)
        ensures
            v@ == self@,
    {
        match self {
            Value::Null => Value::Null,
            Value::Integer(i) => Value::Integer(*i),
            Value::Float(bits) => Value::Float(*bits),
            Value::String(s) => Value::String(s.clone()),
            Value::Boolean(b) => Value::Boolean(*b),
        }
    }
}

/// The entries of a row object, in order: field name and value.
pub type Entries = Seq<(Seq<char>, ValueView)>;

/// The position of the first entry called `key`, if there is one.
pub open spec fn find_key(entries: Entries, key: Seq<char>) -> Option<int>
    decreases entries.len(),
{
    if entries.len() == 0 {
        None
    } else {
        match find_key(entries.drop_last(), key) {
            Some(i) => Some(i),
            None => if entries.last().0 == key {
                Some(entries.len() - 1)
            } else {
                None
            },
        }
    }
}

/// The value stored under `key`, if there is one.
pub open spec fn lookup(entries: Entries, key: Seq<char>) -> Option<ValueView> {
    match find_key(entries, key) {
        Some(i) => Some(entries[i].1),
        None => None,
    }
}

/// The entries after `value` was stored under `key`: an entry called `key`
/// keeps its place and takes the new value; otherwise a new entry comes last.
pub open spec fn upsert(entries: Entries, key: Seq<char>, value: ValueView) -> Entries {
    match find_key(entries, key) {
        Some(i) => entries.update(i, (key, value)),
        None => entries.push((key, value)),
    }
}

/// No two entries have the same name.
pub open spec fn distinct_keys(entries: Entries) -> bool {
    forall|i: int, j: int|
        0 <= i < j < entries.len() ==> (#[trigger] entries[i]).0 != (#[trigger] entries[j]).0
}

/// What `find_key` returns is the position of an entry called `key`, and no
/// entry before it has that name; it returns nothing only where no entry has
/// that name.
pub proof fn lemma_find_key(entries: Entries, key: Seq<char>)
    ensures
        match find_key(entries, key) {
            Some(i) => 0 <= i < entries.len() && entries[i].0 == key && forall|j: int|
                0 <= j < i ==> (#[trigger] entries[j]).0 != key,
            None => forall|j: int| 0 <= j < entries.len() ==> (#[trigger] entries[j]).0 != key,
        },
    decreases entries.len(),
{
    if entries.len() > 0 {
        let front = entries.drop_last();
        lemma_find_key(front, key);
        assert forall|j: int| 0 <= j < front.len() implies front[j] == entries[j] by {}
        match find_key(front, key) {
            Some(i) => {
                assert(front[i] == entries[i]);
                assert forall|j: int| 0 <= j < i implies (#[trigger] entries[j]).0 != key by {
                    assert(front[j] == entries[j]);
                }
            },
            None => {
                assert forall|j: int| 0 <= j < front.len() implies (#[trigger] entries[j]).0
                    != key by {
                    assert(front[j] == entries[j]);
                }
            },
        }
    }
}

/// Storing a value keeps the names distinct, and the value is then found
/// under its name, while every other name keeps what it had.
pub proof fn lemma_upsert(entries: Entries, key: Seq<char>, value: ValueView)
    requires
        distinct_keys(entries),
    ensures
        distinct_keys(upsert(entries, key, value)),
        lookup(upsert(entries, key, value), key) == Some(value),
        forall|other: Seq<char>|
            other != key ==> #[trigger] lookup(upsert(entries, key, value), other) == lookup(
                entries,
                other,
            ),
{
    let after = upsert(entries, key, value);
    lemma_find_key(entries, key);
    lemma_find_key(after, key);
    assert forall|other: Seq<char>| other != key implies #[trigger] lookup(after, other) == lookup(
        entries,
        other,
    ) by {
        lemma_find_key(entries, other);
        lemma_find_key(after, other);
        match find_key(entries, other) {
            Some(i) => {
                assert(after[i].0 == other);
            },
            None => {},
        }
        match find_key(after, other) {
            Some(i) => {
                assert(entries[i].0 == other);
            },
            None => {},
        }
    }
    match find_key(entries, key) {
        Some(i) => {
            assert(after[i].0 == key);
        },
        None => {
            assert(after[entries.len() as int].0 == key);
        },
    }
}

/// The insertion-ordered hash map of the `indexmap` crate.
#[verifier::external_type_specification]
#[verifier::external_body]
#[verifier::reject_recursive_types(K)]
#[verifier::reject_recursive_types(V)]
#[verifier::reject_recursive_types(S)]
pub struct ExIndexMap<K, V, S>(IndexMap<K, V, S>);

/// The key-value pairs that an `IndexMap` from field names to values holds,
/// in the order in which the map iterates over them.
pub uninterp spec fn map_entries(m: IndexMap<String, Value>) -> Entries;

/// `IndexMap::new` makes a map without entries.
#[verifier::external_body]
fn map_new() -> (m: IndexMap<String, Value>)
    ensures
        map_entries(m) == Seq::<(Seq<char>, ValueView)>::empty(),
{
    IndexMap::new()
}

/// `IndexMap::insert`: where the map has an equal key, that entry keeps its
/// place and its value is replaced; otherwise the pair is added last.
#[verifier::external_body]
fn map_insert(m: &mut IndexMap<String, Value>, key: String, value: Value)
    ensures
        map_entries(*final(m)) == upsert(map_entries(*old(m)), key@, value@),
{
    m.insert(key, value);
}

/// `IndexMap::get` hands out the value stored under an equal key, or nothing
/// where the map has no such key.
#[verifier::external_body]
fn map_get<'a>(m: &'a IndexMap<String, Value>, key: &str) -> (r: Option<&'a Value>)
    ensures
        match r {
            Some(v) => lookup(map_entries(*m), key@) == Some(v@),
            None => lookup(map_entries(*m), key@) is None,
        },
{
    m.get(key)
}

/// `IndexMap::len` counts the key-value pairs.
#[verifier::external_body]
fn map_len(m: &IndexMap<String, Value>) -> (n: usize)
    ensures
        n == map_entries(*m).len(),
{
    m.len()
}

/// `IndexMap::get_index` hands out the pair at a position of the iteration
/// order, or nothing where the position is past the end.
#[verifier::external_body]
fn map_get_index<'a>(m: &'a IndexMap<String, Value>, index: usize) -> (r: Option<
    (&'a String, &'a Value),
>)
    ensures
        match r {
            Some((k, v)) => index < map_entries(*m).len() && map_entries(*m)[index as int] == (
                k@,
                v@,
            ),
            None => index >= map_entries(*m).len(),
        },
{
    m.get_index(index)
}

/// One row as the API hands it out: an ordered mapping from field names to
/// values.
#[derive(Debug, PartialEq, Eq)]
pub struct RowObject {
    fields: IndexMap<String, Value>,
}

impl View for RowObject {
    type V = Entries;

    closed spec fn view(&self) -> Entries {
        map_entries(self.fields)
    }
}

impl RowObject {
    /// A row without fields.
    pub fn new() -> (row: RowObject)
        ensures
            row@ == Seq::<(Seq<char>, ValueView)>::empty(),
    {
        RowObject { fields: map_new() }
    }

    /// Stores `value` under `name`: a field of that name keeps its place and
    /// takes the new value; otherwise the field is added last.
    pub fn insert(&mut self, name: String, value: Value)
        ensures
            final(self)@ == upsert(old(self)@, name@, value@),
    {
        map_insert(&mut self.fields, name, value);
    }

    /// The value of the field called `name`, if the row has one.
    pub fn get(&self, name: &str) -> (r: Option<&Value>)
        ensures
            match r {
                Some(v) => lookup(self@, name@) == Some(v@),
                None => lookup(self@, name@) is None,
            },
    {
        map_get(&self.fields, name)
    }

    /// The number of fields.
    pub fn len(&self) -> (n: usize)
        ensures
            n == self@.len(),
    {
        map_len(&self.fields)
    }

    /// The field at position `index`: its name and its value.
    pub fn get_index(&self, index: usize) -> (r: Option<(&String, &Value)>)
        ensures
            match r {
                Some((k, v)) => index < self@.len() && self@[index as int] == (k@, v@),
                None => index >= self@.len(),
            },
    {
        map_get_index(&self.fields, index)
    }
}

} // verus!
