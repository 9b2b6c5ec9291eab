//! The schema compiler: from the entity descriptors and the field lists of
//! their tables to the schema that the server publishes.

use vstd::prelude::*;
use crate::config::registry::registry_complaint;
use crate::config::types::{
    clone_optional, entity_complaint, entity_views, lemma_no_complaint, optional_text,
    EntityConfig, EntityView,
};
use crate::error::{ErrorKind, ErrorView, NouninatorError};
use crate::schema::column::{field_views, FieldDescriptor, FieldView};
use crate::schema::resolver::{
    create_get_resolver, create_list_resolver, get_operation, input_views, list_operation, Field,
    OperationView, Resolver, ResolverView,
};
use crate::schema::scalars::{
    date_scalar_view, datetime_scalar_view, register_custom_scalars, Scalar, ScalarView,
};
use crate::schema::type_mapping::{
    arrow_to_graphql_type, mapped_type, TypeNode, BOOLEAN, DATE, DATE_TIME, FLOAT, ID, INT, STRING,
};
use crate::text::{
    concat3, concat4, concat5, ends_with, find_repeat, first_repeat, has_suffix, same_text, texts,
};

verus! {

/// The name of the object type that holds the operations.
pub const QUERY: &'static str = "Query";

/// An object type: its name, its description and its fields.
#[derive(Debug)]
pub struct Object {
    pub name: String,
    pub description: Option<String>,
    pub fields: Vec<Field>,
}

/// An object type in contracts.
pub struct ObjectView {
    pub name: Seq<char>,
    pub description: Option<Seq<char>>,
    pub fields: Seq<OperationView>,
}

/// The fields of an object type in contracts.
pub open spec fn operation_views(fields: Seq<Field>) -> Seq<OperationView> {
    Seq::new(fields.len(), |i: int| fields[i]@)
}

impl View for Object {
    type V = ObjectView;

    open spec fn view(&self) -> ObjectView {
        ObjectView {
            name: self.name@,
            description: optional_text(self.description),
            fields: operation_views(self.fields@),
        }
    }
}

/// The object types of a schema in contracts.
pub open spec fn object_views(objects: Seq<Object>) -> Seq<ObjectView> {
    Seq::new(objects.len(), |i: int| objects[i]@)
}

/// The scalars of a schema in contracts.
pub open spec fn scalar_views(scalars: Seq<Scalar>) -> Seq<ScalarView> {
    Seq::new(scalars.len(), |i: int| scalars[i]@)
}

/// The names of a list of fields.
pub open spec fn field_names(fields: Seq<OperationView>) -> Seq<Seq<char>> {
    Seq::new(fields.len(), |i: int| fields[i].name)
}

/// The position of the first field called `name`, if there is one.
pub open spec fn find_field(fields: Seq<OperationView>, name: Seq<char>, n: nat) -> Option<int>
    decreases n,
{
    if n == 0 {
        None
    } else {
        match find_field(fields, name, (n - 1) as nat) {
            Some(i) => Some(i),
            None => if fields[n - 1].name == name {
                Some(n - 1)
            } else {
                None
            },
        }
    }
}

/// Once a field is found among the first `k`, it is the one found among the
/// first `n`.
pub proof fn lemma_find_field_stays(fields: Seq<OperationView>, name: Seq<char>, k: nat, n: nat)
    requires
        k <= n,
        find_field(fields, name, k) is Some,
    ensures
        find_field(fields, name, n) == find_field(fields, name, k),
    decreases n - k,
{
    if k < n {
        lemma_find_field_stays(fields, name, k, (n - 1) as nat);
    }
}

/// What `find_field` finds is a field of that name, and it finds nothing
/// only where no field has that name.
pub proof fn lemma_find_field(fields: Seq<OperationView>, name: Seq<char>, n: nat)
    ensures
        match find_field(fields, name, n) {
            Some(i) => 0 <= i < n && fields[i].name == name,
            None => forall|j: int| 0 <= j < n ==> (#[trigger] fields[j]).name != name,
        },
    decreases n,
{
    if n > 0 {
        lemma_find_field(fields, name, (n - 1) as nat);
    }
}

impl Object {
    /// The field called `name`, if the type has one. A field that the type
    /// does not have cannot be selected.
    pub fn field(&self, name: &str) -> (r: Option<&Field>)
        ensures
            match r {
                Some(f) => find_field(self@.fields, name@, self@.fields.len()) matches Some(i)
                    && self@.fields[i] == f@,
                None => find_field(self@.fields, name@, self@.fields.len()) is None,
            },
    {
        let ghost fields = self@.fields;
        let mut i: usize = 0;
        while i < self.fields.len()
            invariant
                i <= self.fields.len(),
                fields == operation_views(self.fields@),
                find_field(fields, name@, i as nat) is None,
            decreases self.fields.len() - i,
        {
            if same_text(self.fields[i].name.as_str(), name) {
                proof {
                    assert(fields[i as int] == self.fields@[i as int]@);
                    assert(find_field(fields, name@, (i + 1) as nat) == Some(i as int));
                    lemma_find_field_stays(fields, name@, (i + 1) as nat, fields.len());
                }
                return Some(&self.fields[i]);
            }
            proof {
                assert(fields[i as int] == self.fields@[i as int]@);
            }
            i = i + 1;
        }
        None
    }
}

/// The schema that the server publishes: the object type of the operations,
/// the object types of the entities and the custom scalars.
#[derive(Debug)]
pub struct Schema {
    query: Object,
    objects: Vec<Object>,
    scalars: Vec<Scalar>,
}

/// A schema in contracts.
pub struct SchemaView {
    pub query: ObjectView,
    pub objects: Seq<ObjectView>,
    pub scalars: Seq<ScalarView>,
}

impl View for Schema {
    type V = SchemaView;

    closed spec fn view(&self) -> SchemaView {
        SchemaView {
            query: self.query@,
            objects: object_views(self.objects@),
            scalars: scalar_views(self.scalars@),
        }
    }
}

impl Schema {
    /// The object type of the operations.
    pub fn query(&self) -> (q: &Object)
        ensures
            q@ == self@.query,
    {
        &self.query
    }

    /// The object types of the entities, in the order of the entities.
    pub fn objects(&self) -> (objects: &Vec<Object>)
        ensures
            object_views(objects@) == self@.objects,
    {
        &self.objects
    }

    /// The custom scalars.
    pub fn scalars(&self) -> (scalars: &Vec<Scalar>)
        ensures
            scalar_views(scalars@) == self@.scalars,
    {
        &self.scalars
    }
}

/// The field of an object type that exposes a column.
pub open spec fn property_field(name: Seq<char>, type_ref: TypeNode) -> OperationView {
    OperationView { name, type_ref, arguments: Seq::empty(), resolver: ResolverView::Property }
}

/// The fields of the object type of a table with the first `n` of the given
/// columns: one for every column that has an API type, in column order.
pub open spec fn mapped_fields(fields: Seq<FieldView>, n: nat) -> Seq<OperationView>
    decreases n,
{
    if n == 0 {
        Seq::empty()
    } else {
        let field = fields[n - 1];
        match mapped_type(field.name, field.data_type, field.nullable) {
            Some(t) => mapped_fields(fields, (n - 1) as nat).push(property_field(field.name, t)),
            None => mapped_fields(fields, (n - 1) as nat),
        }
    }
}

/// One of the first `n` columns is called `name`.
pub open spec fn has_column(fields: Seq<FieldView>, name: Seq<char>, n: nat) -> bool {
    exists|i: int| 0 <= i < n && (#[trigger] fields[i]).name == name
}

/// A failure of kind `SchemaGeneration` with the given message.
pub open spec fn schema_error(message: Seq<char>) -> ErrorView {
    ErrorView { kind: ErrorKind::SchemaGeneration, message }
}

/// The object type of an entity over the columns of its table: named and
/// described as the entity, with the mapped columns as fields. An entity
/// whose primary key is none of the columns has no object type.
pub open spec fn entity_type(entity: EntityView, fields: Seq<FieldView>) -> Result<
    ObjectView,
    ErrorView,
> {
    if !has_column(fields, entity.primary_key, fields.len()) {
        Err(
            schema_error(
                "Primary key '"@ + entity.primary_key + "' not found in table '"@ + entity.table
                    + "'"@,
            ),
        )
    } else {
        Ok(
            ObjectView {
                name: entity.graphql_name,
                description: entity.description,
                fields: mapped_fields(fields, fields.len()),
            },
        )
    }
}

/// The tables that a builder knows: name and columns of each, in the order
/// in which they were registered.
pub type Catalog = Seq<(Seq<char>, Seq<FieldView>)>;

/// The columns of the first of the first `n` tables called `name`.
pub open spec fn find_table(catalog: Catalog, name: Seq<char>, n: nat) -> Option<Seq<FieldView>>
    decreases n,
{
    if n == 0 {
        None
    } else {
        match find_table(catalog, name, (n - 1) as nat) {
            Some(fields) => Some(fields),
            None => if catalog[n - 1].0 == name {
                Some(catalog[n - 1].1)
            } else {
                None
            },
        }
    }
}

/// Once a table is found among the first `k`, it is the one found among the
/// first `n`.
pub proof fn lemma_find_table_stays(catalog: Catalog, name: Seq<char>, k: nat, n: nat)
    requires
        k <= n,
        find_table(catalog, name, k) is Some,
    ensures
        find_table(catalog, name, n) == find_table(catalog, name, k),
    decreases n - k,
{
    if k < n {
        lemma_find_table_stays(catalog, name, k, (n - 1) as nat);
    }
}

/// What the compiler makes of one entity: its object type, its point lookup
/// and its listing.
pub struct EntitySchema {
    pub object: ObjectView,
    pub get: OperationView,
    pub list: OperationView,
}

/// Compiles one entity: the descriptor has to be valid, its table known and
/// its primary key among the columns; the two operations select the fields
/// of the object type.
pub open spec fn compile_entity(catalog: Catalog, entity: EntityView) -> Result<
    EntitySchema,
    ErrorView,
> {
    match entity_complaint(entity) {
        Some(complaint) => Err(
            ErrorView {
                kind: ErrorKind::Config,
                message: "Invalid entity '"@ + entity.graphql_name + "': "@ + complaint,
            },
        ),
        None => match find_table(catalog, entity.table, catalog.len()) {
            None => Err(
                schema_error("Failed to get table '"@ + entity.table + "': table not found"@),
            ),
            Some(fields) => match entity_type(entity, fields) {
                Err(e) => Err(e),
                Ok(object) => Ok(
                    EntitySchema {
                        object,
                        get: get_operation(entity, field_names(object.fields)),
                        list: list_operation(entity, field_names(object.fields)),
                    },
                ),
            },
        },
    }
}

/// Compiles the first `n` entities in order; the first failure is the
/// failure of all.
pub open spec fn compile_entities(catalog: Catalog, entities: Seq<EntityView>, n: nat) -> Result<
    Seq<EntitySchema>,
    ErrorView,
>
    decreases n,
{
    if n == 0 {
        Ok(Seq::empty())
    } else {
        match compile_entities(catalog, entities, (n - 1) as nat) {
            Err(e) => Err(e),
            Ok(compiled) => match compile_entity(catalog, entities[n - 1]) {
                Err(e) => Err(e),
                Ok(one) => Ok(compiled.push(one)),
            },
        }
    }
}

/// Once the first `k` entities have failed, so have the first `n`.
pub proof fn lemma_compile_failure_stays(
    catalog: Catalog,
    entities: Seq<EntityView>,
    k: nat,
    n: nat,
)
    requires
        k <= n,
        compile_entities(catalog, entities, k) is Err,
    ensures
        compile_entities(catalog, entities, n) == compile_entities(catalog, entities, k),
    decreases n - k,
{
    if k < n {
        lemma_compile_failure_stays(catalog, entities, k, (n - 1) as nat);
    }
}

/// The names that no entity may take: the object type of the operations and
/// the scalars.
pub open spec fn reserved_names() -> Seq<Seq<char>> {
    seq![QUERY@, DATE@, DATE_TIME@, ID@, INT@, FLOAT@, STRING@, BOOLEAN@]
}

/// The names of all types of a schema: the reserved ones, then those of the
/// entities.
pub open spec fn type_names(compiled: Seq<EntitySchema>) -> Seq<Seq<char>> {
    reserved_names() + Seq::new(compiled.len(), |i: int| compiled[i].object.name)
}

/// The operations of a schema: for each entity its point lookup, then its
/// listing.
pub open spec fn operations(compiled: Seq<EntitySchema>) -> Seq<OperationView> {
    Seq::new(
        2 * compiled.len(),
        |i: int|
            if i % 2 == 0 {
                compiled[i / 2].get
            } else {
                compiled[i / 2].list
            },
    )
}

/// The schema of the compiled entities.
pub open spec fn assemble(compiled: Seq<EntitySchema>) -> Result<SchemaView, ErrorView> {
    let types = type_names(compiled);
    let names = field_names(operations(compiled));
    match first_repeat(types, types.len()) {
        Some(j) => Err(
            schema_error(
                "Failed to build schema: type '"@ + types[j] + "' is defined more than once"@,
            ),
        ),
        None => match first_repeat(names, names.len()) {
            Some(j) => Err(
                schema_error(
                    "Failed to build schema: field '"@ + names[j]
                        + "' is defined more than once"@,
                ),
            ),
            None => Ok(
                SchemaView {
                    query: ObjectView {
                        name: QUERY@,
                        description: None,
                        fields: operations(compiled),
                    },
                    objects: Seq::new(compiled.len(), |i: int| compiled[i].object),
                    scalars: seq![date_scalar_view(), datetime_scalar_view()],
                },
            ),
        },
    }
}

/// The schema of the entities over the tables of the catalog. Compilation is
/// all or nothing: without entities, with an entity that fails, or with a
/// type or an operation that is defined twice, there is no schema.
pub open spec fn compile(catalog: Catalog, entities: Seq<EntityView>) -> Result<
    SchemaView,
    ErrorView,
> {
    if entities.len() == 0 {
        Err(schema_error("No entities provided"@))
    } else {
        match compile_entities(catalog, entities, entities.len()) {
            Err(e) => Err(e),
            Ok(compiled) => assemble(compiled),
        }
    }
}

/// A table that a builder knows.
#[derive(Debug)]
pub struct RegisteredTable {
    name: String,
    fields: Vec<FieldDescriptor>,
}

/// How the file behind a path is read.
#[derive(Debug, Clone, Copy, PartialEq, Eq, Structural)]
pub enum TableFormat {
    /// A file of comma-separated values.
    Csv,
    /// A transaction-logged table directory.
    Delta,
}

/// Compiles schemas over the tables that were registered with it.
#[derive(Debug)]
pub struct SchemaBuilder {
    tables: Vec<RegisteredTable>,
}

/// The tables of a builder in contracts.
pub closed spec fn catalog_of(tables: Seq<RegisteredTable>) -> Catalog {
    Seq::new(tables.len(), |i: int| (tables[i].name@, field_views(tables[i].fields@)))
}

impl View for SchemaBuilder {
    type V = Catalog;

    closed spec fn view(&self) -> Catalog {
        catalog_of(self.tables@)
    }
}

/// The failure to load the table at `path`.
pub open spec fn load_error(format: TableFormat, path: Seq<char>, reason: Seq<char>) -> ErrorView {
    match format {
        TableFormat::Csv => schema_error("Failed to register CSV '"@ + path + "': "@ + reason),
        TableFormat::Delta => schema_error(
            "Failed to open Delta table '"@ + path + "': "@ + reason,
        ),
    }
}

/// The format of the file behind `path`: comma-separated values where the
/// path ends in `.csv`, a table directory otherwise.
pub open spec fn format_of(path: Seq<char>) -> TableFormat {
    if has_suffix(path, ".csv"@) {
        TableFormat::Csv
    } else {
        TableFormat::Delta
    }
}

/// The outcome of a registration in contracts: the catalog afterwards, or
/// the failure.
pub open spec fn registered(
    catalog: Catalog,
    name: Seq<char>,
    path: Seq<char>,
    loaded: Result<Seq<FieldView>, Seq<char>>,
) -> Result<Catalog, ErrorView> {
    match loaded {
        Err(reason) => Err(load_error(format_of(path), path, reason)),
        Ok(fields) => if find_table(catalog, name, catalog.len()) is Some {
            Err(
                schema_error(
                    "Failed to register table '"@ + name + "': table already exists"@,
                ),
            )
        } else {
            Ok(catalog.push((name, fields)))
        },
    }
}

/// What was loaded from a path, in contracts.
pub open spec fn loaded_view(loaded: Result<Vec<FieldDescriptor>, String>) -> Result<
    Seq<FieldView>,
    Seq<char>,
> {
    match loaded {
        Ok(fields) => Ok(field_views(fields@)),
        Err(reason) => Err(reason@),
    }
}

fn object_field_names(object: &Object) -> (names: Vec<String>)
    ensures
        texts(names@) == field_names(object@.fields),
{
    let mut names: Vec<String> = Vec::new();
    let mut i: usize = 0;
    while i < object.fields.len()
        invariant
            i <= object.fields.len(),
            texts(names@) == field_names(object@.fields).take(i as int),
        decreases object.fields.len() - i,
    {
        let ghost before = names@;
        names.push(object.fields[i].name.clone());
        proof {
            assert(texts(names@) =~= texts(before).push(object.fields@[i as int].name@));
            assert(field_names(object@.fields).take(i + 1) =~= field_names(object@.fields).take(
                i as int,
            ).push(object.fields@[i as int].name@));
        }
        i = i + 1;
    }
    proof {
        assert(field_names(object@.fields).take(object.fields.len() as int) == field_names(
            object@.fields,
        ));
    }
    names
}

impl Default for SchemaBuilder {
    /// A builder that knows no table.
    fn default() -> (builder: SchemaBuilder)
        ensures
            builder@ == Seq::<(Seq<char>, Seq<FieldView>)>::empty(),
    {
        SchemaBuilder::new()
    }
}

impl SchemaBuilder {
    /// A builder that knows no table.
    pub fn new() -> (builder: SchemaBuilder)
        ensures
            builder@ == Seq::<(Seq<char>, Seq<FieldView>)>::empty(),
    {
        let builder = SchemaBuilder { tables: Vec::new() };
        assert(builder@ =~= Seq::<(Seq<char>, Seq<FieldView>)>::empty());
        builder
    }

    /// The number of registered tables.
    pub fn num_tables(&self) -> (n: usize)
        ensures
            n == self@.len(),
    {
        self.tables.len()
    }

    /// How the file behind `path` is read.
    pub fn table_format(path: &str) -> (format: TableFormat)
        ensures
            format == format_of(path@),
    {
        if ends_with(path, ".csv") {
            TableFormat::Csv
        } else {
            TableFormat::Delta
        }
    }

    /// The columns of the table called `name`, if it is registered.
    pub fn table_fields(&self, name: &str) -> (r: Option<&Vec<FieldDescriptor>>)
        ensures
            match r {
                Some(fields) => find_table(self@, name@, self@.len()) == Some(field_views(fields@)),
                None => find_table(self@, name@, self@.len()) is None,
            },
    {
        let ghost catalog = self@;
        let mut i: usize = 0;
        while i < self.tables.len()
            invariant
                i <= self.tables.len(),
                catalog == catalog_of(self.tables@),
                find_table(catalog, name@, i as nat) is None,
            decreases self.tables.len() - i,
        {
            proof {
                assert(catalog[i as int] == (
                    self.tables@[i as int].name@,
                    field_views(self.tables@[i as int].fields@),
                ));
            }
            if same_text(self.tables[i].name.as_str(), name) {
                proof {
                    lemma_find_table_stays(catalog, name@, (i + 1) as nat, catalog.len());
                }
                return Some(&self.tables[i].fields);
            }
            i = i + 1;
        }
        None
    }

    /// Registers the table `name` with the columns that were loaded from
    /// `path`. Fails where loading failed, with a message that goes by the
    /// format of the path, and where a table of that name is registered
    /// already; the builder then stays as it was.
    pub fn register_table_from_path(
        &mut self,
        name: &str,
        path: &str,
        loaded: Result<Vec<FieldDescriptor>, String>,
    ) -> (r: Result<(), NouninatorError>)
        ensures
            match r {
                Ok(_) => registered(old(self)@, name@, path@, loaded_view(loaded)) == Ok::<
                    Catalog,
                    ErrorView,
                >(final(self)@),
                Err(e) => registered(old(self)@, name@, path@, loaded_view(loaded)) == Err::<
                    Catalog,
                    ErrorView,
                >(e@) && final(self)@ == old(self)@,
            },
    {
        match loaded {
            Err(reason) => {
                let message = match SchemaBuilder::table_format(path) {
                    TableFormat::Csv => concat4(
                        "Failed to register CSV '",
                        path,
                        "': ",
                        reason.as_str(),
                    ),
                    TableFormat::Delta => concat4(
                        "Failed to open Delta table '",
                        path,
                        "': ",
                        reason.as_str(),
                    ),
                };
                Err(NouninatorError::SchemaGeneration(message))
            },
            Ok(fields) => {
                if self.table_fields(name).is_some() {
                    return Err(
                        NouninatorError::SchemaGeneration(
                            concat3("Failed to register table '", name, "': table already exists"),
                        ),
                    );
                }
                let ghost before = self@;
                let ghost added = field_views(fields@);
                self.tables.push(RegisteredTable { name: name.to_owned(), fields });
                proof {
                    assert(self@ =~= before.push((name@, added)));
                }
                Ok(())
            },
        }
    }

    /// Builds the object type of an entity over the columns of its table.
    pub fn build_entity_type(entity: &EntityConfig, fields: &Vec<FieldDescriptor>) -> (r: Result<
        Object,
        NouninatorError,
    >)
        ensures
            match r {
                Ok(object) => entity_type(entity@, field_views(fields@)) == Ok::<
                    ObjectView,
                    ErrorView,
                >(object@),
                Err(e) => entity_type(entity@, field_views(fields@)) == Err::<ObjectView, ErrorView>(
                    e@,
                ),
            },
    {
        let ghost columns = field_views(fields@);
        let mut object_fields: Vec<Field> = Vec::new();
        let mut has_key = false;
        let mut i: usize = 0;
        proof {
            assert(operation_views(object_fields@) =~= Seq::<OperationView>::empty());
        }
        while i < fields.len()
            invariant
                i <= fields.len(),
                columns == field_views(fields@),
                has_key == has_column(columns, entity@.primary_key, i as nat),
                operation_views(object_fields@) == mapped_fields(columns, i as nat),
            decreases fields.len() - i,
        {
            let field = &fields[i];
            proof {
                assert(columns[i as int] == field@);
            }
            if same_text(field.name.as_str(), entity.primary_key.as_str()) {
                has_key = true;
            }
            match arrow_to_graphql_type(field.name.as_str(), &field.data_type, field.nullable) {
                Some(type_ref) => {
                    let ghost before = object_fields@;
                    let made = Field {
                        name: field.name.clone(),
                        type_ref,
                        arguments: Vec::new(),
                        resolver: Resolver::Property,
                    };
                    proof {
                        assert(input_views(made.arguments@) =~= Seq::<(Seq<char>, TypeNode)>::empty());
                    }
                    object_fields.push(made);
                    proof {
                        assert(operation_views(object_fields@) =~= operation_views(before).push(
                            property_field(field@.name, type_ref@),
                        ));
                    }
                },
                None => {},
            }
            i = i + 1;
        }
        if !has_key {
            return Err(
                NouninatorError::SchemaGeneration(
                    concat5(
                        "Primary key '",
                        entity.primary_key.as_str(),
                        "' not found in table '",
                        entity.table.as_str(),
                        "'",
                    ),
                ),
            );
        }
        Ok(
            Object {
                name: entity.graphql_name.clone(),
                description: clone_optional(&entity.description),
                fields: object_fields,
            },
        )
    }
}

/// The result of a compilation in contracts.
pub open spec fn schema_result(r: Result<Schema, NouninatorError>) -> Result<SchemaView, ErrorView> {
    match r {
        Ok(schema) => Ok(schema@),
        Err(e) => Err(e@),
    }
}

/// The objects of the compiled entities.
pub open spec fn compiled_objects(compiled: Seq<EntitySchema>) -> Seq<ObjectView> {
    Seq::new(compiled.len(), |i: int| compiled[i].object)
}

fn reserved() -> (names: Vec<String>)
    ensures
        texts(names@) == reserved_names(),
{
    let mut names: Vec<String> = Vec::new();
    names.push(QUERY.to_owned());
    names.push(DATE.to_owned());
    names.push(DATE_TIME.to_owned());
    names.push(ID.to_owned());
    names.push(INT.to_owned());
    names.push(FLOAT.to_owned());
    names.push(STRING.to_owned());
    names.push(BOOLEAN.to_owned());
    proof {
        assert(texts(names@) =~= reserved_names());
    }
    names
}

fn assemble_schema(objects: Vec<Object>, fields: Vec<Field>, Ghost(compiled): Ghost<
    Seq<EntitySchema>,
>) -> (r: Result<Schema, NouninatorError>)
    requires
        object_views(objects@) == compiled_objects(compiled),
        operation_views(fields@) == operations(compiled),
    ensures
        schema_result(r) == assemble(compiled),
{
    let mut types = reserved();
    proof {
        assert(object_views(objects@).len() == objects@.len());
        assert(compiled_objects(compiled).len() == compiled.len());
        assert(texts(types@) =~= type_names(compiled).take(8));
    }
    let mut i: usize = 0;
    while i < objects.len()
        invariant
            i <= objects.len(),
            objects@.len() == compiled.len(),
            object_views(objects@) == compiled_objects(compiled),
            texts(types@) == type_names(compiled).take(8 + i),
        decreases objects.len() - i,
    {
        let ghost before = types@;
        types.push(objects[i].name.clone());
        proof {
            assert(object_views(objects@)[i as int] == objects@[i as int]@);
            assert(compiled_objects(compiled)[i as int] == compiled[i as int].object);
            assert(texts(types@) =~= texts(before).push(objects@[i as int].name@));
            assert(type_names(compiled).take(8 + i + 1) =~= type_names(compiled).take(8 + i).push(
                compiled[i as int].object.name,
            ));
        }
        i = i + 1;
    }
    proof {
        assert(object_views(objects@).len() == compiled.len());
        assert(type_names(compiled).take(8 + objects.len()) == type_names(compiled));
    }
    match find_repeat(&types) {
        Some(j) => {
            return Err(
                NouninatorError::SchemaGeneration(
                    concat3(
                        "Failed to build schema: type '",
                        types[j].as_str(),
                        "' is defined more than once",
                    ),
                ),
            );
        },
        None => {},
    }
    let mut names: Vec<String> = Vec::new();
    let mut k: usize = 0;
    while k < fields.len()
        invariant
            k <= fields.len(),
            texts(names@) == field_names(operation_views(fields@)).take(k as int),
        decreases fields.len() - k,
    {
        let ghost before = names@;
        names.push(fields[k].name.clone());
        proof {
            assert(texts(names@) =~= texts(before).push(fields@[k as int].name@));
            assert(field_names(operation_views(fields@)).take(k + 1) =~= field_names(
                operation_views(fields@),
            ).take(k as int).push(fields@[k as int].name@));
        }
        k = k + 1;
    }
    proof {
        assert(field_names(operation_views(fields@)).take(fields.len() as int) == field_names(
            operation_views(fields@),
        ));
    }
    match find_repeat(&names) {
        Some(j) => {
            return Err(
                NouninatorError::SchemaGeneration(
                    concat3(
                        "Failed to build schema: field '",
                        names[j].as_str(),
                        "' is defined more than once",
                    ),
                ),
            );
        },
        None => {},
    }
    let scalars = register_custom_scalars();
    let schema = Schema {
        query: Object { name: QUERY.to_owned(), description: None, fields },
        objects,
        scalars,
    };
    proof {
        assert(scalar_views(schema.scalars@) =~= seq![date_scalar_view(), datetime_scalar_view()]);
    }
    Ok(schema)
}

impl SchemaBuilder {
    /// Compiles the schema of the entities over the registered tables. Each
    /// entity in order has to be valid, its table registered and its primary
    /// key among the columns of the table; the first failure ends the
    /// compilation. No schema is made without entities, nor where two types
    /// or two operations would get the same name.
    pub fn build_schema(&mut self, entities: Vec<EntityConfig>) -> (r: Result<
        Schema,
        NouninatorError,
    >)
        ensures
            schema_result(r) == compile(old(self)@, entity_views(entities@)),
            final(self)@ == old(self)@,
    {
        let ghost catalog = self@;
        let ghost views = entity_views(entities@);
        if entities.len() == 0 {
            return Err(NouninatorError::SchemaGeneration("No entities provided".to_owned()));
        }
        let mut objects: Vec<Object> = Vec::new();
        let mut fields: Vec<Field> = Vec::new();
        let ghost mut compiled: Seq<EntitySchema> = Seq::empty();
        proof {
            assert(object_views(objects@) =~= compiled_objects(compiled));
            assert(operation_views(fields@) =~= operations(compiled));
        }
        let mut i: usize = 0;
        while i < entities.len()
            invariant
                i <= entities.len(),
                catalog == self@,
                self@ == old(self)@,
                views == entity_views(entities@),
                compile_entities(catalog, views, i as nat) == Ok::<Seq<EntitySchema>, ErrorView>(
                    compiled,
                ),
                compiled.len() == i,
                objects@.len() == i,
                fields@.len() == 2 * i,
                object_views(objects@) == compiled_objects(compiled),
                operation_views(fields@) == operations(compiled),
            decreases entities.len() - i,
        {
            let entity = &entities[i];
            proof {
                assert(views[i as int] == entity@);
            }
            match entity.validate() {
                Ok(_) => {},
                Err(complaint) => {
                    proof {
                        lemma_compile_failure_stays(catalog, views, (i + 1) as nat, views.len());
                    }
                    return Err(
                        NouninatorError::Config(
                            concat4(
                                "Invalid entity '",
                                entity.graphql_name.as_str(),
                                "': ",
                                complaint.as_str(),
                            ),
                        ),
                    );
                },
            }
            let columns = match self.table_fields(entity.table.as_str()) {
                Some(columns) => columns,
                None => {
                    proof {
                        lemma_compile_failure_stays(catalog, views, (i + 1) as nat, views.len());
                    }
                    return Err(
                        NouninatorError::SchemaGeneration(
                            concat3(
                                "Failed to get table '",
                                entity.table.as_str(),
                                "': table not found",
                            ),
                        ),
                    );
                },
            };
            let object = match SchemaBuilder::build_entity_type(entity, columns) {
                Ok(object) => object,
                Err(e) => {
                    proof {
                        lemma_compile_failure_stays(catalog, views, (i + 1) as nat, views.len());
                    }
                    return Err(e);
                },
            };
            let selected = object_field_names(&object);
            let get = create_get_resolver(entity, &selected);
            let list = create_list_resolver(entity, &selected);
            let ghost one = EntitySchema { object: object@, get: get@, list: list@ };
            let ghost before = compiled;
            let ghost objects_before = objects@;
            let ghost fields_before = fields@;
            proof {
                assert(compile_entity(catalog, entity@) == Ok::<EntitySchema, ErrorView>(one));
                compiled = compiled.push(one);
            }
            objects.push(object);
            fields.push(get);
            fields.push(list);
            proof {
                assert(object_views(objects@) =~= compiled_objects(compiled)) by {
                    assert forall|k: int| 0 <= k < objects@.len() implies object_views(objects@)[k]
                        == compiled_objects(compiled)[k] by {
                        if k < i {
                            assert(object_views(objects_before)[k] == compiled_objects(before)[k]);
                        }
                    }
                }
                assert(operation_views(fields@) =~= operations(compiled)) by {
                    assert forall|k: int| 0 <= k < fields@.len() implies operation_views(fields@)[k]
                        == operations(compiled)[k] by {
                        if k < 2 * i {
                            assert(operation_views(fields_before)[k] == operations(before)[k]);
                        }
                    }
                }
            }
            i = i + 1;
        }
        assemble_schema(objects, fields, Ghost(compiled))
    }
}

/// Compiling the same entities over the same tables twice gives the same
/// schema: the same object types with the same fields of the same types,
/// and the same operations.
pub proof fn lemma_compile_is_deterministic(
    catalog: Catalog,
    entities: Seq<EntityView>,
    first: Result<SchemaView, ErrorView>,
    second: Result<SchemaView, ErrorView>,
)
    requires
        first == compile(catalog, entities),
        second == compile(catalog, entities),
    ensures
        first == second,
        first matches Ok(a) ==> second matches Ok(b) && a.objects == b.objects && a.query == b.query,
{
}

/// Every field of the object type of a table stands for a column that has an
/// API type, under the column's name and with that type; and every column
/// that has an API type has its field.
pub proof fn lemma_mapped_fields(fields: Seq<FieldView>, n: nat)
    ensures
        forall|k: int|
            0 <= k < mapped_fields(fields, n).len() ==> exists|i: int|
                0 <= i < n && mapped_type(
                    (#[trigger] fields[i]).name,
                    fields[i].data_type,
                    fields[i].nullable,
                ) is Some && (#[trigger] mapped_fields(fields, n)[k]) == property_field(
                    fields[i].name,
                    mapped_type(fields[i].name, fields[i].data_type, fields[i].nullable)->Some_0,
                ),
        forall|i: int|
            0 <= i < n && mapped_type(
                (#[trigger] fields[i]).name,
                fields[i].data_type,
                fields[i].nullable,
            ) is Some ==> exists|k: int|
                0 <= k < mapped_fields(fields, n).len() && (#[trigger] mapped_fields(fields, n)[k])
                    == property_field(
                    fields[i].name,
                    mapped_type(fields[i].name, fields[i].data_type, fields[i].nullable)->Some_0,
                ),
    decreases n,
{
    if n > 0 {
        let m = (n - 1) as nat;
        lemma_mapped_fields(fields, m);
        let before = mapped_fields(fields, m);
        let after = mapped_fields(fields, n);
        let last = fields[n - 1];
        assert forall|k: int| 0 <= k < after.len() implies exists|i: int|
            0 <= i < n && mapped_type(
                (#[trigger] fields[i]).name,
                fields[i].data_type,
                fields[i].nullable,
            ) is Some && (#[trigger] after[k]) == property_field(
                fields[i].name,
                mapped_type(fields[i].name, fields[i].data_type, fields[i].nullable)->Some_0,
            ) by {
            if k < before.len() {
                assert(after[k] == before[k]);
                let i = choose|i: int|
                    0 <= i < m && mapped_type(
                        (#[trigger] fields[i]).name,
                        fields[i].data_type,
                        fields[i].nullable,
                    ) is Some && before[k] == property_field(
                        fields[i].name,
                        mapped_type(fields[i].name, fields[i].data_type, fields[i].nullable)->Some_0,
                    );
                assert(0 <= i < n);
            } else {
                assert(mapped_type(last.name, last.data_type, last.nullable) is Some);
                assert(after[k] == property_field(
                    fields[n - 1].name,
                    mapped_type(
                        fields[n - 1].name,
                        fields[n - 1].data_type,
                        fields[n - 1].nullable,
                    )->Some_0,
                ));
            }
        }
        assert forall|i: int|
            0 <= i < n && mapped_type(
                (#[trigger] fields[i]).name,
                fields[i].data_type,
                fields[i].nullable,
            ) is Some implies exists|k: int|
            0 <= k < after.len() && (#[trigger] after[k]) == property_field(
                fields[i].name,
                mapped_type(fields[i].name, fields[i].data_type, fields[i].nullable)->Some_0,
            ) by {
            if i < m {
                let k = choose|k: int|
                    0 <= k < before.len() && (#[trigger] before[k]) == property_field(
                        fields[i].name,
                        mapped_type(fields[i].name, fields[i].data_type, fields[i].nullable)->Some_0,
                    );
                assert(after[k] == before[k]);
            } else {
                assert(after[after.len() - 1] == property_field(
                    last.name,
                    mapped_type(last.name, last.data_type, last.nullable)->Some_0,
                ));
            }
        }
    }
}

/// A name under which no column has an API type is the name of no field of
/// the compiled type: such a field cannot be selected.
pub proof fn lemma_unmappable_fields_are_absent(fields: Seq<FieldView>, name: Seq<char>)
    requires
        forall|i: int|
            0 <= i < fields.len() && (#[trigger] fields[i]).name == name ==> mapped_type(
                fields[i].name,
                fields[i].data_type,
                fields[i].nullable,
            ) is None,
    ensures
        find_field(
            mapped_fields(fields, fields.len()),
            name,
            mapped_fields(fields, fields.len()).len(),
        ) is None,
{
    let compiled = mapped_fields(fields, fields.len());
    lemma_mapped_fields(fields, fields.len());
    lemma_find_field(compiled, name, compiled.len());
    if find_field(compiled, name, compiled.len()) is Some {
        let k = find_field(compiled, name, compiled.len())->Some_0;
        assert(compiled[k].name == name);
        let i = choose|i: int|
            0 <= i < fields.len() && mapped_type(
                (#[trigger] fields[i]).name,
                fields[i].data_type,
                fields[i].nullable,
            ) is Some && compiled[k] == property_field(
                fields[i].name,
                mapped_type(fields[i].name, fields[i].data_type, fields[i].nullable)->Some_0,
            );
        assert(fields[i].name == name);
    }
}

/// The entities of a registry are never refused as malformed: where their
/// compilation fails, it fails as a schema compilation.
pub proof fn lemma_registry_is_not_refused(catalog: Catalog, entities: Seq<EntityView>)
    requires
        registry_complaint(entities) is None,
    ensures
        compile(catalog, entities) matches Err(e) ==> e.kind == ErrorKind::SchemaGeneration,
{
    lemma_no_complaint(entities, entities.len());
    lemma_valid_entities_compile(catalog, entities, entities.len());
}

/// Where the first `n` entities are valid, their compilation fails only as
/// a schema compilation.
pub proof fn lemma_valid_entities_compile(catalog: Catalog, entities: Seq<EntityView>, n: nat)
    requires
        forall|i: int| 0 <= i < n ==> entity_complaint(#[trigger] entities[i]) is None,
    ensures
        compile_entities(catalog, entities, n) matches Err(e) ==> e.kind
            == ErrorKind::SchemaGeneration,
    decreases n,
{
    if n > 0 {
        lemma_valid_entities_compile(catalog, entities, (n - 1) as nat);
        assert(entity_complaint(entities[n - 1]) is None);
    }
}

} // verus!
