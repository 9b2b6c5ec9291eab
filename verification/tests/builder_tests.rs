use nouninator::schema::builder::Schema;
use nouninator::schema::type_mapping::TypeRef;
use nouninator::schema::{
    DataType, FieldDescriptor, Resolver, SchemaBuilder, TableFormat, TimeUnit,
};
use nouninator::{EntityConfig, ErrorKind, NouninatorError};

fn entity(table: &str, graphql_name: &str, primary_key: &str) -> EntityConfig {
    EntityConfig {
        table: table.to_string(),
        graphql_name: graphql_name.to_string(),
        primary_key: primary_key.to_string(),
        description: Some(format!("{} rows", graphql_name)),
        storage_location: None,
    }
}

fn item_fields() -> Vec<FieldDescriptor> {
    vec![
        FieldDescriptor::new("item_id", DataType::Int64, false),
        FieldDescriptor::new("name", DataType::Utf8, true),
        FieldDescriptor::new("tags", DataType::List, true),
        FieldDescriptor::new("created_at", DataType::Timestamp(TimeUnit::Microsecond), false),
        FieldDescriptor::new("details", DataType::Struct, true),
    ]
}

fn builder() -> SchemaBuilder {
    let mut builder = SchemaBuilder::new();
    builder.register_table_from_path("t", "data/t.csv", Ok(item_fields())).unwrap();
    builder
        .register_table_from_path(
            "main.sales.orders",
            "s3://bucket/orders",
            Ok(vec![
                FieldDescriptor::new("id", DataType::UInt64, false),
                FieldDescriptor::new("total", DataType::Float64, true),
                FieldDescriptor::new("day", DataType::Date32, true),
            ]),
        )
        .unwrap();
    builder
}

fn compile(entities: Vec<EntityConfig>) -> Result<Schema, NouninatorError> {
    builder().build_schema(entities)
}

fn signature(schema: &Schema) -> Vec<(String, Vec<(String, String)>)> {
    schema
        .objects()
        .iter()
        .map(|o| {
            (
                o.name.clone(),
                o.fields.iter().map(|f| (f.name.clone(), f.type_ref.to_string())).collect(),
            )
        })
        .collect()
}

#[test]
fn the_schema_of_one_entity() {
    let schema = compile(vec![entity("t", "Item", "item_id")]).unwrap();
    assert_eq!(schema.query().name, "Query");
    assert_eq!(schema.query().description, None);
    let operations: Vec<(String, String)> = schema
        .query()
        .fields
        .iter()
        .map(|f| (f.name.clone(), f.type_ref.to_string()))
        .collect();
    assert_eq!(
        operations,
        vec![
            ("item".to_string(), "Item".to_string()),
            ("list_item".to_string(), "[Item!]!".to_string())
        ]
    );
    assert_eq!(schema.objects().len(), 1);
    let object = &schema.objects()[0];
    assert_eq!(object.name, "Item");
    assert_eq!(object.description.as_deref(), Some("Item rows"));
    assert_eq!(
        signature(&schema)[0].1,
        vec![
            ("item_id".to_string(), "ID!".to_string()),
            ("name".to_string(), "String".to_string()),
            ("created_at".to_string(), "DateTime!".to_string()),
        ]
    );
    for field in object.fields.iter() {
        assert!(matches!(field.resolver, Resolver::Property));
        assert!(field.arguments.is_empty());
    }
    let scalars: Vec<&str> = schema.scalars().iter().map(|s| s.name.as_str()).collect();
    assert_eq!(scalars, vec!["Date", "DateTime"]);
}

#[test]
fn operations_select_the_fields_of_the_type() {
    let schema = compile(vec![entity("t", "Item", "item_id")]).unwrap();
    match &schema.query().fields[0].resolver {
        Resolver::Get { table, primary_key, columns } => {
            assert_eq!(table, "t");
            assert_eq!(primary_key, "item_id");
            assert_eq!(columns, &vec!["item_id", "name", "created_at"]);
        }
        _ => panic!("expected a point lookup"),
    }
    match &schema.query().fields[1].resolver {
        Resolver::List { table, columns } => {
            assert_eq!(table, "t");
            assert_eq!(columns, &vec!["item_id", "name", "created_at"]);
        }
        _ => panic!("expected a listing"),
    }
    assert_eq!(schema.query().fields[0].arguments[0].name, "item_id");
    assert_eq!(schema.query().fields[0].arguments[0].type_ref, TypeRef::named_nn("ID"));
}

#[test]
fn unmappable_fields_are_absent_from_the_type() {
    let schema = compile(vec![entity("t", "Item", "item_id")]).unwrap();
    let object = &schema.objects()[0];
    assert!(object.field("tags").is_none());
    assert!(object.field("details").is_none());
    assert!(object.field("no_such_column").is_none());
    assert_eq!(object.field("name").unwrap().type_ref.to_string(), "String");
    assert_eq!(object.field("item_id").unwrap().type_ref.to_string(), "ID!");
    assert_eq!(schema.query().field("list_item").unwrap().name, "list_item");
    assert!(schema.query().field("tags").is_none());
}

#[test]
fn compiling_twice_gives_the_same_types() {
    let entities =
        || vec![entity("t", "Item", "item_id"), entity("main.sales.orders", "Order", "id")];
    let first = compile(entities()).unwrap();
    let second = compile(entities()).unwrap();
    assert_eq!(signature(&first), signature(&second));
    let mut same_builder = builder();
    let third = same_builder.build_schema(entities()).unwrap();
    let fourth = same_builder.build_schema(entities()).unwrap();
    assert_eq!(signature(&third), signature(&fourth));
    assert_eq!(signature(&first), signature(&third));
    assert_eq!(
        signature(&first)[1],
        (
            "Order".to_string(),
            vec![
                ("id".to_string(), "ID!".to_string()),
                ("total".to_string(), "Float".to_string()),
                ("day".to_string(), "Date".to_string()),
            ]
        )
    );
    let names: Vec<&str> = first.query().fields.iter().map(|f| f.name.as_str()).collect();
    assert_eq!(names, vec!["item", "list_item", "order", "list_order"]);
}

fn failure(entities: Vec<EntityConfig>) -> NouninatorError {
    compile(entities).unwrap_err()
}

#[test]
fn no_schema_without_entities() {
    let e = failure(vec![]);
    assert_eq!(e.kind(), ErrorKind::SchemaGeneration);
    assert_eq!(e.message(), "No entities provided");
    assert_eq!(e.to_string(), "Schema generation error: No entities provided");
}

#[test]
fn an_invalid_entity_is_a_configuration_error() {
    let e = failure(vec![entity("t", "Item", "item_id"), entity("a.b", "Order", "id")]);
    assert_eq!(e.kind(), ErrorKind::Config);
    assert_eq!(
        e.message(),
        "Invalid entity 'Order': Table 'a.b' must be either a simple name or in format 'catalog.schema.table'"
    );
    let e = failure(vec![entity("t", "item", "item_id")]);
    assert_eq!(e.kind(), ErrorKind::Config);
    assert_eq!(
        e.message(),
        "Invalid entity 'item': GraphQL name 'item' must start with uppercase letter (PascalCase)"
    );
    let e = failure(vec![entity("t", "It-em", "item_id")]);
    assert_eq!(e.message(), "Invalid entity 'It-em': GraphQL name 'It-em' must be alphanumeric");
}

#[test]
fn an_unknown_table_fails_the_compilation() {
    let e = failure(vec![entity("missing", "Item", "item_id")]);
    assert_eq!(e.kind(), ErrorKind::SchemaGeneration);
    assert_eq!(e.message(), "Failed to get table 'missing': table not found");
}

#[test]
fn a_primary_key_that_is_no_column_fails_the_compilation() {
    let e = failure(vec![entity("t", "Item", "id")]);
    assert_eq!(e.kind(), ErrorKind::SchemaGeneration);
    assert_eq!(e.message(), "Primary key 'id' not found in table 't'");
    assert!(compile(vec![entity("t", "Item", "tags")]).is_ok());
}

#[test]
fn the_first_failure_wins() {
    let e = failure(vec![
        entity("t", "Item", "item_id"),
        entity("missing", "Order", "id"),
        entity("bad.shape", "lower", "id"),
    ]);
    assert_eq!(e.message(), "Failed to get table 'missing': table not found");
    let e = failure(vec![entity("bad.shape", "lower", "id"), entity("missing", "Order", "id")]);
    assert_eq!(e.kind(), ErrorKind::Config);
    let e = failure(vec![entity("t", "Item", "nope"), entity("t", "Item", "item_id")]);
    assert_eq!(e.message(), "Primary key 'nope' not found in table 't'");
}

#[test]
fn type_names_have_to_be_distinct() {
    let e = failure(vec![entity("t", "Item", "item_id"), entity("main.sales.orders", "Item", "id")]);
    assert_eq!(e.kind(), ErrorKind::SchemaGeneration);
    assert_eq!(e.message(), "Failed to build schema: type 'Item' is defined more than once");
    for reserved in ["Query", "Date", "DateTime", "ID", "Int", "Float", "String", "Boolean"] {
        let e = failure(vec![entity("t", reserved, "item_id")]);
        assert_eq!(
            e.message(),
            format!("Failed to build schema: type '{}' is defined more than once", reserved)
        );
    }
}

#[test]
fn operation_names_have_to_be_distinct() {
    let e = failure(vec![entity("t", "X", "item_id"), entity("main.sales.orders", "ListX", "id")]);
    assert_eq!(e.kind(), ErrorKind::SchemaGeneration);
    assert_eq!(e.message(), "Failed to build schema: field 'list_x' is defined more than once");
}

#[test]
fn tables_are_registered_once() {
    let mut builder = builder();
    assert_eq!(builder.num_tables(), 2);
    let e = builder.register_table_from_path("t", "other.csv", Ok(vec![])).unwrap_err();
    assert_eq!(e.kind(), ErrorKind::SchemaGeneration);
    assert_eq!(e.message(), "Failed to register table 't': table already exists");
    assert_eq!(builder.num_tables(), 2);
    assert_eq!(builder.table_fields("t").unwrap().len(), 5);
    assert_eq!(builder.table_fields("main.sales.orders").unwrap()[0].name, "id");
    assert!(builder.table_fields("T").is_none());
}

#[test]
fn failures_to_load_go_by_the_format() {
    let mut builder = SchemaBuilder::new();
    let e = builder
        .register_table_from_path("t", "data/t.csv", Err("no such file".to_string()))
        .unwrap_err();
    assert_eq!(e.kind(), ErrorKind::SchemaGeneration);
    assert_eq!(e.message(), "Failed to register CSV 'data/t.csv': no such file");
    let e = builder
        .register_table_from_path("t", "s3://bucket/t", Err("not a table".to_string()))
        .unwrap_err();
    assert_eq!(e.message(), "Failed to open Delta table 's3://bucket/t': not a table");
    assert_eq!(builder.num_tables(), 0);
    assert_eq!(SchemaBuilder::table_format("a.csv"), TableFormat::Csv);
    assert_eq!(SchemaBuilder::table_format(".csv"), TableFormat::Csv);
    assert_eq!(SchemaBuilder::table_format("a.CSV"), TableFormat::Delta);
    assert_eq!(SchemaBuilder::table_format("a.csv/"), TableFormat::Delta);
    assert_eq!(SchemaBuilder::table_format("csv"), TableFormat::Delta);
    assert_eq!(SchemaBuilder::table_format(""), TableFormat::Delta);
}

#[test]
fn the_type_of_an_entity() {
    let object = SchemaBuilder::build_entity_type(&entity("t", "Item", "item_id"), &item_fields())
        .unwrap();
    assert_eq!(object.name, "Item");
    assert_eq!(object.fields.len(), 3);
    let e = SchemaBuilder::build_entity_type(&entity("t", "Item", "item_id"), &vec![]).unwrap_err();
    assert_eq!(e.message(), "Primary key 'item_id' not found in table 't'");
}

#[test]
fn the_default_builder_knows_no_table() {
    let mut builder = SchemaBuilder::default();
    assert_eq!(builder.num_tables(), 0);
    let e = builder.build_schema(vec![entity("t", "Item", "item_id")]).unwrap_err();
    assert_eq!(e.message(), "Failed to get table 't': table not found");
}

#[test]
fn the_entities_of_a_registry_compile() {
    let registry = nouninator::config::EntityRegistry::new(vec![
        entity("t", "Item", "item_id"),
        entity("main.sales.orders", "Order", "id"),
    ])
    .unwrap();
    let schema = builder().build_schema(registry.to_vec()).unwrap();
    assert_eq!(schema.objects().len(), 2);
    assert_eq!(schema.query().fields.len(), 4);
}
