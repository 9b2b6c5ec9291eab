//! The records of the catalog service.

use vstd::prelude::*;
use crate::config::types::optional_text;
use crate::text::same_text;

verus! {

/// The properties of a table in contracts: keys and values, in the order in
/// which they were stored.
pub type PropertyEntries = Seq<(Seq<char>, Seq<char>)>;

/// The pairs of a list of properties in contracts.
pub open spec fn property_views(properties: Seq<(String, String)>) -> PropertyEntries {
    Seq::new(properties.len(), |i: int| (properties[i].0@, properties[i].1@))
}

/// The position of the first of the first `n` properties called `key`.
pub open spec fn key_position(properties: PropertyEntries, key: Seq<char>, n: nat) -> Option<int>
    decreases n,
{
    if n == 0 {
        None
    } else {
        match key_position(properties, key, (n - 1) as nat) {
            Some(i) => Some(i),
            None => if properties[n - 1].0 == key {
                Some(n - 1)
            } else {
                None
            },
        }
    }
}

/// The value of the first of the first `n` properties called `key`.
pub open spec fn find_property(properties: PropertyEntries, key: Seq<char>, n: nat) -> Option<
    Seq<char>,
> {
    match key_position(properties, key, n) {
        Some(i) => Some(properties[i].1),
        None => None,
    }
}

/// No key occurs twice.
pub open spec fn distinct_property_keys(properties: PropertyEntries) -> bool {
    forall|i: int, j: int|
        0 <= i < j < properties.len() ==> (#[trigger] properties[i]).0 != (
        #[trigger] properties[j]).0
}

/// The properties after `value` was stored under `key`: a property of that
/// key takes the new value, otherwise a new property comes last.
pub open spec fn stored(properties: PropertyEntries, key: Seq<char>, value: Seq<char>) -> PropertyEntries {
    match key_position(properties, key, properties.len()) {
        Some(i) => properties.update(i, (key, value)),
        None => properties.push((key, value)),
    }
}

/// The properties after the first `n` of the given pairs were stored, one
/// after the other.
pub open spec fn stored_all(pairs: PropertyEntries, n: nat) -> PropertyEntries
    decreases n,
{
    if n == 0 {
        Seq::empty()
    } else {
        stored(stored_all(pairs, (n - 1) as nat), pairs[n - 1].0, pairs[n - 1].1)
    }
}

/// Once a key is found among the first `k` properties, it is the one found
/// among the first `n`.
pub proof fn lemma_key_position_stays(properties: PropertyEntries, key: Seq<char>, k: nat, n: nat)
    requires
        k <= n,
        key_position(properties, key, k) is Some,
    ensures
        key_position(properties, key, n) == key_position(properties, key, k),
    decreases n - k,
{
    if k < n {
        lemma_key_position_stays(properties, key, k, (n - 1) as nat);
    }
}

/// What `key_position` finds is the position of a property of that key, and
/// it finds nothing only where no property has that key.
pub proof fn lemma_key_position(properties: PropertyEntries, key: Seq<char>, n: nat)
    ensures
        match key_position(properties, key, n) {
            Some(i) => 0 <= i < n && properties[i].0 == key,
            None => forall|j: int| 0 <= j < n ==> (#[trigger] properties[j]).0 != key,
        },
    decreases n,
{
    if n > 0 {
        lemma_key_position(properties, key, (n - 1) as nat);
    }
}

/// Storing a value keeps the keys distinct, and the value is then found
/// under its key.
pub proof fn lemma_stored(properties: PropertyEntries, key: Seq<char>, value: Seq<char>)
    requires
        distinct_property_keys(properties),
    ensures
        distinct_property_keys(stored(properties, key, value)),
        find_property(
            stored(properties, key, value),
            key,
            stored(properties, key, value).len(),
        ) == Some(value),
{
    let after = stored(properties, key, value);
    lemma_key_position(properties, key, properties.len());
    lemma_key_position(after, key, after.len());
    match key_position(properties, key, properties.len()) {
        Some(i) => {
            assert(after[i].0 == key);
        },
        None => {
            assert(after[properties.len() as int].0 == key);
        },
    }
}

/// The properties of a table: a value for each key, no key twice.
#[derive(Debug)]
pub struct Properties {
    entries: Vec<(String, String)>,
}

impl View for Properties {
    type V = PropertyEntries;

    closed spec fn view(&self) -> PropertyEntries {
        property_views(self.entries@)
    }
}

fn position_of_key(entries: &Vec<(String, String)>, key: &str) -> (r: Option<usize>)
    ensures
        match r {
            Some(i) => key_position(property_views(entries@), key@, entries@.len()) == Some(
                i as int,
            ) && i < entries@.len(),
            None => key_position(property_views(entries@), key@, entries@.len()) is None,
        },
{
    let ghost view = property_views(entries@);
    let mut i: usize = 0;
    while i < entries.len()
        invariant
            i <= entries.len(),
            view == property_views(entries@),
            key_position(view, key@, i as nat) is None,
        decreases entries.len() - i,
    {
        proof {
            assert(view[i as int] == (entries@[i as int].0@, entries@[i as int].1@));
        }
        if same_text(entries[i].0.as_str(), key) {
            proof {
                lemma_key_position_stays(view, key@, (i + 1) as nat, view.len());
            }
            return Some(i);
        }
        i = i + 1;
    }
    None
}

impl Properties {
    #[verifier::type_invariant]
    spec fn keys_are_distinct(self) -> bool {
        distinct_property_keys(property_views(self.entries@))
    }

    /// No properties.
    pub fn new() -> (properties: Properties)
        ensures
            properties@ == Seq::<(Seq<char>, Seq<char>)>::empty(),
    {
        let properties = Properties { entries: Vec::new() };
        assert(properties@ =~= Seq::<(Seq<char>, Seq<char>)>::empty());
        properties
    }

    /// These properties with `value` stored under `key`: a property of that
    /// key takes the new value, otherwise a new property comes last.
    pub fn with(self, key: String, value: String) -> (properties: Properties)
        ensures
            properties@ == stored(self@, key@, value@),
    {
        proof {
            use_type_invariant(&self);
            lemma_stored(self@, key@, value@);
        }
        let ghost before = self@;
        let Properties { mut entries } = self;
        match position_of_key(&entries, key.as_str()) {
            Some(i) => {
                entries.set(i, (key, value));
                proof {
                    assert(property_views(entries@) =~= before.update(i as int, (key@, value@)));
                }
            },
            None => {
                entries.push((key, value));
                proof {
                    assert(property_views(entries@) =~= before.push((key@, value@)));
                }
            },
        }
        Properties { entries }
    }

    /// The properties made of the given pairs, stored one after the other:
    /// of two pairs with one key the later gives the value.
    pub fn from_pairs(pairs: Vec<(String, String)>) -> (properties: Properties)
        ensures
            properties@ == stored_all(property_views(pairs@), pairs@.len()),
    {
        let ghost view = property_views(pairs@);
        let mut properties = Properties::new();
        let mut i: usize = 0;
        while i < pairs.len()
            invariant
                i <= pairs.len(),
                view == property_views(pairs@),
                properties@ == stored_all(view, i as nat),
            decreases pairs.len() - i,
        {
            proof {
                assert(view[i as int] == (pairs@[i as int].0@, pairs@[i as int].1@));
            }
            properties = properties.with(pairs[i].0.clone(), pairs[i].1.clone());
            i = i + 1;
        }
        properties
    }

    /// The value of the property called `key`, if there is one.
    pub fn get(&self, key: &str) -> (r: Option<&String>)
        ensures
            match r {
                Some(v) => find_property(self@, key@, self@.len()) == Some(v@),
                None => find_property(self@, key@, self@.len()) is None,
            },
    {
        match position_of_key(&self.entries, key) {
            Some(i) => {
                proof {
                    assert(self@[i as int] == (self.entries@[i as int].0@, self.entries@[i as int].1@));
                }
                Some(&self.entries[i].1)
            },
            None => None,
        }
    }

    /// The properties as pairs of key and value. No key occurs twice.
    pub fn pairs(&self) -> (pairs: &Vec<(String, String)>)
        ensures
            property_views(pairs@) == self@,
            distinct_property_keys(self@),
    {
        proof {
            use_type_invariant(self);
        }
        &self.entries
    }

    /// The number of properties.
    pub fn len(&self) -> (n: usize)
        ensures
            n == self@.len(),
    {
        self.entries.len()
    }
}

/// Response from listing the tables of a schema.
#[derive(Debug)]
pub struct ListTablesResponse {
    pub tables: Option<Vec<TableInfo>>,
}

/// Basic table information from the list operation.
#[derive(Debug)]
pub struct TableInfo {
    pub name: String,
    pub catalog_name: String,
    pub schema_name: String,
    pub table_type: String,
    pub data_source_format: String,
    pub storage_location: Option<String>,
    pub comment: Option<String>,
    pub properties: Properties,
}

/// A table of the list operation in contracts.
pub struct TableView {
    pub name: Seq<char>,
    pub catalog_name: Seq<char>,
    pub schema_name: Seq<char>,
    pub table_type: Seq<char>,
    pub data_source_format: Seq<char>,
    pub storage_location: Option<Seq<char>>,
    pub comment: Option<Seq<char>>,
    pub properties: PropertyEntries,
}

impl View for TableInfo {
    type V = TableView;

    open spec fn view(&self) -> TableView {
        TableView {
            name: self.name@,
            catalog_name: self.catalog_name@,
            schema_name: self.schema_name@,
            table_type: self.table_type@,
            data_source_format: self.data_source_format@,
            storage_location: optional_text(self.storage_location),
            comment: optional_text(self.comment),
            properties: self.properties@,
        }
    }
}

/// Detailed table metadata from the get operation.
#[derive(Debug)]
pub struct TableMetadata {
    pub name: String,
    pub catalog_name: String,
    pub schema_name: String,
    pub table_type: String,
    pub data_source_format: String,
    pub columns: Vec<ColumnInfo>,
    pub storage_location: Option<String>,
    pub properties: Properties,
    pub comment: Option<String>,
}

/// The metadata of a table in contracts.
pub struct MetadataView {
    pub name: Seq<char>,
    pub catalog_name: Seq<char>,
    pub schema_name: Seq<char>,
    pub table_type: Seq<char>,
    pub data_source_format: Seq<char>,
    pub columns: Seq<Seq<char>>,
    pub storage_location: Option<Seq<char>>,
    pub properties: PropertyEntries,
    pub comment: Option<Seq<char>>,
}

/// The names of a list of columns.
pub open spec fn column_names(columns: Seq<ColumnInfo>) -> Seq<Seq<char>> {
    Seq::new(columns.len(), |i: int| columns[i].name@)
}

impl View for TableMetadata {
    type V = MetadataView;

    open spec fn view(&self) -> MetadataView {
        MetadataView {
            name: self.name@,
            catalog_name: self.catalog_name@,
            schema_name: self.schema_name@,
            table_type: self.table_type@,
            data_source_format: self.data_source_format@,
            columns: column_names(self.columns@),
            storage_location: optional_text(self.storage_location),
            properties: self.properties@,
            comment: optional_text(self.comment),
        }
    }
}

/// Column information.
#[derive(Debug)]
pub struct ColumnInfo {
    pub name: String,
    pub type_text: String,
    /// The name of the column's type, such as `bigint` or `string`.
    pub base_type: String,
    pub position: i32,
    pub nullable: bool,
    pub comment: Option<String>,
}

/// The tables of a list response: those listed, none where the response
/// names none.
pub fn listed_tables(response: ListTablesResponse) -> (tables: Vec<TableInfo>)
    ensures
        match response.tables {
            Some(listed) => tables == listed,
            None => tables@.len() == 0,
        },
{
    match response.tables {
        Some(listed) => listed,
        None => Vec::new(),
    }
}

} // verus!
