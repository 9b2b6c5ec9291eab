//! Discovery of entities from the tables of the catalog service.

use vstd::prelude::*;
use crate::config::types::{clone_optional, entity_views, EntityConfig, EntityView};
use crate::error::{ErrorKind, ErrorView, NouninatorError};
use crate::text::{
    char_uppercase, chars_of, concat3, contains_name, ends_with, first_with_suffix,
    lemma_first_with_suffix_stays, same_text, uppercase_of,
};
use crate::unity::types::{
    column_names, find_property, ColumnInfo, MetadataView, TableInfo, TableMetadata,
    TableView,
};

verus! {

/// The format of the tables that are exposed.
pub const DELTA: &'static str = "DELTA";

/// The property that names the primary key of a table.
pub const PRIMARY_KEY: &'static str = "primary_key";

/// The type name of a table name, read from position to position: an
/// underscore is left out and starts a word, the first character of a word
/// is put in uppercase, every other character stays.
pub open spec fn pascal_case_from(s: Seq<char>, at_start: bool) -> Seq<char>
    decreases s.len(),
{
    if s.len() == 0 {
        Seq::empty()
    } else if s[0] == '_' {
        pascal_case_from(s.skip(1), true)
    } else if at_start {
        char_uppercase(s[0]) + pascal_case_from(s.skip(1), false)
    } else {
        seq![s[0]] + pascal_case_from(s.skip(1), false)
    }
}

/// The type name of a table name: its words, which underscores separate,
/// each with its first character in uppercase, written without separator.
pub open spec fn pascal_case(s: Seq<char>) -> Seq<char> {
    pascal_case_from(s, true)
}

/// The type name of the table name `s`.
pub fn to_pascal_case(s: &str) -> (r: String)
    ensures
        r@ == pascal_case(s@),
{
    let v = chars_of(s);
    let mut r = String::new();
    let mut at_start = true;
    let mut i: usize = 0;
    proof {
        assert(v@.skip(0) == v@);
        assert(r@ + pascal_case(v@) == pascal_case(v@));
    }
    while i < v.len()
        invariant
            i <= v.len(),
            r@ + pascal_case_from(v@.skip(i as int), at_start) == pascal_case(v@),
        decreases v.len() - i,
    {
        let ghost rest = v@.skip(i as int);
        let ghost before = r@;
        proof {
            assert(rest.skip(1) == v@.skip(i + 1));
            assert(rest[0] == v@[i as int]);
        }
        let c = v[i];
        if c == '_' {
            at_start = true;
        } else if at_start {
            let upper = uppercase_of(c);
            r.append(upper.as_str());
            at_start = false;
            proof {
                assert((before + char_uppercase(c)) + pascal_case_from(v@.skip(i + 1), false)
                    == before + (char_uppercase(c) + pascal_case_from(v@.skip(i + 1), false)));
            }
        } else {
            r.push(c);
            proof {
                assert(before.push(c) + pascal_case_from(v@.skip(i + 1), false) == before + (seq![c]
                    + pascal_case_from(v@.skip(i + 1), false)));
            }
        }
        i = i + 1;
    }
    proof {
        assert(v@.skip(v.len() as int).len() == 0);
        assert(r@ + Seq::<char>::empty() == r@);
    }
    r
}

/// The full name of a table: catalog, schema and table, separated by dots.
pub open spec fn full_name(catalog: Seq<char>, schema: Seq<char>, table: Seq<char>) -> Seq<char> {
    catalog + "."@ + schema + "."@ + table
}

/// The primary key of a table: the property `primary_key` of the listed
/// table, else that of the metadata, else the column `id`, else the first
/// column whose name ends in `_id`, else the first column. A table without
/// columns has none.
pub open spec fn inferred_key(table: TableView, metadata: MetadataView) -> Result<
    Seq<char>,
    ErrorView,
> {
    match find_property(table.properties, PRIMARY_KEY@, table.properties.len()) {
        Some(key) => Ok(key),
        None => match find_property(
            metadata.properties,
            PRIMARY_KEY@,
            metadata.properties.len(),
        ) {
            Some(key) => Ok(key),
            None => if contains_name(metadata.columns, "id"@) {
                Ok("id"@)
            } else {
                match first_with_suffix(metadata.columns, "_id"@, metadata.columns.len()) {
                    Some(i) => Ok(metadata.columns[i]),
                    None => if metadata.columns.len() > 0 {
                        Ok(metadata.columns[0])
                    } else {
                        Err(
                            ErrorView {
                                kind: ErrorKind::Config,
                                message: "Table "@ + full_name(
                                    metadata.catalog_name,
                                    metadata.schema_name,
                                    metadata.name,
                                ) + " has no columns"@,
                            },
                        )
                    },
                }
            },
        },
    }
}

fn find_column(columns: &Vec<ColumnInfo>, name: &str) -> (found: bool)
    ensures
        found == contains_name(column_names(columns@), name@),
{
    let ghost names = column_names(columns@);
    let mut i: usize = 0;
    while i < columns.len()
        invariant
            i <= columns.len(),
            names == column_names(columns@),
            forall|k: int| 0 <= k < i ==> #[trigger] names[k] != name@,
        decreases columns.len() - i,
    {
        if same_text(columns[i].name.as_str(), name) {
            assert(names[i as int] == name@);
            return true;
        }
        i = i + 1;
    }
    false
}

fn find_suffixed(columns: &Vec<ColumnInfo>, suffix: &str) -> (r: Option<usize>)
    ensures
        match r {
            Some(i) => first_with_suffix(column_names(columns@), suffix@, columns@.len()) == Some(
                i as int,
            ) && i < columns@.len(),
            None => first_with_suffix(column_names(columns@), suffix@, columns@.len()) is None,
        },
{
    let ghost names = column_names(columns@);
    let mut i: usize = 0;
    while i < columns.len()
        invariant
            i <= columns.len(),
            names == column_names(columns@),
            first_with_suffix(names, suffix@, i as nat) is None,
        decreases columns.len() - i,
    {
        proof {
            assert(names[i as int] == columns@[i as int].name@);
        }
        if ends_with(columns[i].name.as_str(), suffix) {
            proof {
                lemma_first_with_suffix_stays(names, suffix@, (i + 1) as nat, names.len());
            }
            return Some(i);
        }
        i = i + 1;
    }
    None
}

/// Infers the primary key of a table from what the service says of it.
pub fn infer_primary_key(metadata: &TableMetadata, table: &TableInfo) -> (r: Result<
    String,
    NouninatorError,
>)
    ensures
        match r {
            Ok(key) => inferred_key(table@, metadata@) == Ok::<Seq<char>, ErrorView>(key@),
            Err(e) => inferred_key(table@, metadata@) == Err::<Seq<char>, ErrorView>(e@),
        },
{
    match table.properties.get(PRIMARY_KEY) {
        Some(key) => {
            return Ok(key.clone());
        },
        None => {},
    }
    match metadata.properties.get(PRIMARY_KEY) {
        Some(key) => {
            return Ok(key.clone());
        },
        None => {},
    }
    if find_column(&metadata.columns, "id") {
        return Ok("id".to_owned());
    }
    match find_suffixed(&metadata.columns, "_id") {
        Some(i) => {
            return Ok(metadata.columns[i].name.clone());
        },
        None => {},
    }
    if metadata.columns.len() > 0 {
        return Ok(metadata.columns[0].name.clone());
    }
    let name = qualified_name(
        metadata.catalog_name.as_str(),
        metadata.schema_name.as_str(),
        metadata.name.as_str(),
    );
    Err(NouninatorError::Config(concat3("Table ", name.as_str(), " has no columns")))
}

/// The full name of a table.
pub fn qualified_name(catalog: &str, schema: &str, table: &str) -> (name: String)
    ensures
        name@ == full_name(catalog@, schema@, table@),
{
    let mut name = concat3(catalog, ".", schema);
    name.append(".");
    name.append(table);
    name
}

/// The first of two optional texts that is there.
pub open spec fn first_of(a: Option<Seq<char>>, b: Option<Seq<char>>) -> Option<Seq<char>> {
    match a {
        Some(t) => Some(t),
        None => b,
    }
}

/// The entity that exposes a table: under its full name, with the type name
/// of its name and the given primary key; description and storage location
/// are those of the listed table or else those of the metadata.
pub open spec fn entity_of(table: TableView, metadata: MetadataView, key: Seq<char>) -> EntityView {
    EntityView {
        table: full_name(table.catalog_name, table.schema_name, table.name),
        graphql_name: pascal_case(table.name),
        primary_key: key,
        description: first_of(table.comment, metadata.comment),
        storage_location: first_of(table.storage_location, metadata.storage_location),
    }
}

/// A table is exposed where its format is `DELTA`.
pub open spec fn is_delta(table: TableView) -> bool {
    table.data_source_format == DELTA@
}

/// The first table at or after `from` that is exposed; the number of tables
/// where there is none.
pub open spec fn next_delta(tables: Seq<TableView>, from: int) -> int
    decreases tables.len() - from,
{
    if from < 0 || from >= tables.len() {
        tables.len() as int
    } else if is_delta(tables[from]) {
        from
    } else {
        next_delta(tables, from + 1)
    }
}

/// The tables of a discovery in contracts.
pub open spec fn table_views(tables: Seq<TableInfo>) -> Seq<TableView> {
    Seq::new(tables.len(), |i: int| tables[i]@)
}

/// A discovery that waits for the metadata of one table.
#[derive(Debug)]
pub struct Discovery {
    tables: Vec<TableInfo>,
    position: usize,
    entities: Vec<EntityConfig>,
}

/// A discovery in contracts: the listed tables, the position of the table
/// whose metadata is awaited, and the entities made so far.
pub struct DiscoveryView {
    pub tables: Seq<TableView>,
    pub position: int,
    pub entities: Seq<EntityView>,
}

impl View for Discovery {
    type V = DiscoveryView;

    closed spec fn view(&self) -> DiscoveryView {
        DiscoveryView {
            tables: table_views(self.tables@),
            position: self.position as int,
            entities: entity_views(self.entities@),
        }
    }
}

/// What a discovery does next.
#[derive(Debug)]
pub enum DiscoveryStep {
    /// The metadata of the table `full_name` is to be fetched and handed to
    /// `state`.
    Fetch { state: Discovery, full_name: String },
    /// The discovery is over, with these entities.
    Done(Vec<EntityConfig>),
    /// The discovery has failed.
    Failed(NouninatorError),
}

/// A step in contracts.
pub enum StepView {
    Fetch { state: DiscoveryView, full_name: Seq<char> },
    Done(Seq<EntityView>),
    Failed(ErrorView),
}

impl View for DiscoveryStep {
    type V = StepView;

    open spec fn view(&self) -> StepView {
        match self {
            DiscoveryStep::Fetch { state, full_name } => StepView::Fetch {
                state: state@,
                full_name: full_name@,
            },
            DiscoveryStep::Done(entities) => StepView::Done(entity_views(entities@)),
            DiscoveryStep::Failed(e) => StepView::Failed(e@),
        }
    }
}

/// The step of a discovery that has dealt with the tables before `from`:
/// the next exposed table is fetched, and without one the discovery is over.
pub open spec fn step_from(tables: Seq<TableView>, from: int, entities: Seq<EntityView>) -> StepView {
    let position = next_delta(tables, from);
    if position < tables.len() {
        StepView::Fetch {
            state: DiscoveryView { tables, position, entities },
            full_name: full_name(
                tables[position].catalog_name,
                tables[position].schema_name,
                tables[position].name,
            ),
        }
    } else {
        StepView::Done(entities)
    }
}

/// The step after the metadata of the awaited table has come: a failure to
/// fetch it or to infer its primary key ends the discovery; otherwise the
/// table's entity is added and the discovery goes on behind it.
pub open spec fn step_after(state: DiscoveryView, fetched: Result<MetadataView, ErrorView>) -> StepView {
    match fetched {
        Err(e) => StepView::Failed(e),
        Ok(metadata) => match inferred_key(state.tables[state.position], metadata) {
            Err(e) => StepView::Failed(e),
            Ok(key) => step_from(
                state.tables,
                state.position + 1,
                state.entities.push(entity_of(state.tables[state.position], metadata, key)),
            ),
        },
    }
}

/// What was fetched, in contracts.
pub open spec fn fetched_view(fetched: Result<TableMetadata, NouninatorError>) -> Result<
    MetadataView,
    ErrorView,
> {
    match fetched {
        Ok(metadata) => Ok(metadata@),
        Err(e) => Err(e@),
    }
}

fn advance(tables: Vec<TableInfo>, from: usize, entities: Vec<EntityConfig>) -> (step: DiscoveryStep)
    requires
        from <= tables@.len(),
    ensures
        step@ == step_from(table_views(tables@), from as int, entity_views(entities@)),
{
    let ghost views = table_views(tables@);
    let mut position: usize = from;
    while position < tables.len()
        invariant
            from <= position <= tables.len(),
            views == table_views(tables@),
            next_delta(views, from as int) == next_delta(views, position as int),
        decreases tables.len() - position,
    {
        proof {
            assert(views[position as int] == tables@[position as int]@);
        }
        if same_text(tables[position].data_source_format.as_str(), DELTA) {
            let name = qualified_name(
                tables[position].catalog_name.as_str(),
                tables[position].schema_name.as_str(),
                tables[position].name.as_str(),
            );
            return DiscoveryStep::Fetch {
                state: Discovery { tables, position, entities },
                full_name: name,
            };
        }
        position = position + 1;
    }
    DiscoveryStep::Done(entities)
}

/// Starts the discovery of the entities of the listed tables: tables of
/// another format than `DELTA` are passed over.
pub fn discover_entities(tables: Vec<TableInfo>) -> (step: DiscoveryStep)
    ensures
        step@ == step_from(table_views(tables@), 0, Seq::empty()),
{
    let entities: Vec<EntityConfig> = Vec::new();
    proof {
        assert(entity_views(entities@) =~= Seq::<EntityView>::empty());
    }
    advance(tables, 0, entities)
}

impl Discovery {
    #[verifier::type_invariant]
    spec fn awaits_a_table(self) -> bool {
        self.position < self.tables@.len()
    }

    /// The position of the awaited table is one of the tables.
    pub fn position(&self) -> (p: usize)
        ensures
            p == self@.position,
            p < self@.tables.len(),
    {
        proof {
            use_type_invariant(self);
        }
        self.position
    }

    /// Goes on with the metadata of the awaited table, or with the failure
    /// to fetch it.
    pub fn on_table(self, fetched: Result<TableMetadata, NouninatorError>) -> (step: DiscoveryStep)
        ensures
            step@ == step_after(self@, fetched_view(fetched)),
    {
        proof {
            use_type_invariant(&self);
        }
        let ghost views = table_views(self.tables@);
        let ghost before = entity_views(self.entities@);
        let Discovery { tables, position, mut entities } = self;
        let count = tables.len();
        assert(position < count);
        let metadata = match fetched {
            Ok(metadata) => metadata,
            Err(e) => {
                return DiscoveryStep::Failed(e);
            },
        };
        let table = &tables[position];
        proof {
            assert(views[position as int] == table@);
        }
        let key = match infer_primary_key(&metadata, table) {
            Ok(key) => key,
            Err(e) => {
                return DiscoveryStep::Failed(e);
            },
        };
        let entity = EntityConfig {
            table: qualified_name(
                table.catalog_name.as_str(),
                table.schema_name.as_str(),
                table.name.as_str(),
            ),
            graphql_name: to_pascal_case(table.name.as_str()),
            primary_key: key,
            description: match &table.comment {
                Some(c) => Some(c.clone()),
                None => clone_optional(&metadata.comment),
            },
            storage_location: match &table.storage_location {
                Some(c) => Some(c.clone()),
                None => clone_optional(&metadata.storage_location),
            },
        };
        proof {
            assert(entity@ == entity_of(table@, metadata@, key@));
        }
        entities.push(entity);
        proof {
            assert(entity_views(entities@) =~= before.push(entity_of(table@, metadata@, key@)));
        }
        advance(tables, position + 1, entities)
    }
}

} // verus!
