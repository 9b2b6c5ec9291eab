use nouninator::cli::convert::{get_nouns_schema, get_verbs_schema, get_word_frequency_schema};
use nouninator::schema::builder::Schema;
use nouninator::schema::resolver::{complete_lookup, complete_page, EngineFailure};
use nouninator::schema::{
    Argument, Cell, DataType, FieldDescriptor, Input, Query, RecordBatch, RowObject, SchemaBuilder,
    Value,
};
use nouninator::EntityConfig;

/// An example table held in memory, with a few rows, which answers the
/// queries of the library.
struct Rows {
    name: &'static str,
    fields: Vec<FieldDescriptor>,
    rows: Vec<Vec<Cell>>,
}

fn cell(field: &FieldDescriptor, row: i64, word: &str) -> Cell {
    match field.data_type {
        DataType::Int64 if field.name.ends_with("_id") || field.name == "id" => Cell::Int(row),
        DataType::Int64 => Cell::Int(1000 / row),
        DataType::Utf8 if field.name == "word" => Cell::Text(word.to_string()),
        DataType::Utf8 => Cell::Text(format!("{} of {}", field.name, word)),
        DataType::Float64 => Cell::Float(0.5f64.to_bits()),
        DataType::Timestamp(_) => Cell::Int(1_704_067_200_000_000 + row * 60_000_000),
        _ => Cell::Null,
    }
}

fn table(name: &'static str, fields: Vec<FieldDescriptor>, words: &[&str]) -> Rows {
    let rows = words
        .iter()
        .enumerate()
        .map(|(i, word)| fields.iter().map(|f| cell(f, i as i64 + 1, word)).collect())
        .collect();
    Rows { name, fields, rows }
}

fn word_frequency() -> Rows {
    table(
        "word_frequency",
        get_word_frequency_schema(),
        &["the", "be", "to", "of", "and", "a", "in", "that"],
    )
}

fn nouns() -> Rows {
    table("nouns", get_nouns_schema(), &["time", "person", "year", "way", "day", "thing", "man"])
}

fn verbs() -> Rows {
    table("verbs", get_verbs_schema(), &["run", "walk", "think"])
}

fn copy(cell: &Cell) -> Cell {
    match cell {
        Cell::Null => Cell::Null,
        Cell::Int(v) => Cell::Int(*v),
        Cell::UInt(v) => Cell::UInt(*v),
        Cell::Float(v) => Cell::Float(*v),
        Cell::Text(s) => Cell::Text(s.clone()),
        Cell::Bool(b) => Cell::Bool(*b),
        Cell::Opaque => Cell::Opaque,
    }
}

impl Rows {
    fn position(&self, column: &str) -> Result<usize, EngineFailure> {
        self.fields
            .iter()
            .position(|f| f.name == column)
            .ok_or_else(|| EngineFailure::Execution(format!("no column '{}'", column)))
    }

    fn execute(&self, query: &Query) -> Result<Vec<RecordBatch>, EngineFailure> {
        let (table, columns) = match query {
            Query::Lookup { table, columns, .. } => (table, columns),
            Query::Page { table, columns, .. } => (table, columns),
        };
        if table != self.name {
            return Err(EngineFailure::Execution(format!("table '{}' not found", table)));
        }
        let mut picked = Vec::new();
        for column in columns.iter() {
            picked.push(self.position(column)?);
        }
        let rows: Vec<&Vec<Cell>> = match query {
            Query::Lookup { key_column, key, .. } => {
                let at = self.position(key_column)?;
                self.rows
                    .iter()
                    .filter(|r| match &r[at] {
                        Cell::Int(v) => &v.to_string() == key,
                        Cell::Text(s) => s == key,
                        _ => false,
                    })
                    .collect()
            }
            Query::Page { limit, offset, .. } => {
                self.rows.iter().skip(*offset as usize).take(*limit as usize).collect()
            }
        };
        let schema = picked.iter().map(|i| self.fields[*i].clone()).collect();
        let cells = picked.iter().map(|i| rows.iter().map(|r| copy(&r[*i])).collect()).collect();
        RecordBatch::try_new(schema, cells)
            .map(|batch| vec![batch])
            .map_err(|e| EngineFailure::Collection(e.to_string()))
    }
}

fn entity(table: &str, graphql_name: &str, primary_key: &str, description: Option<&str>) -> EntityConfig {
    EntityConfig {
        table: table.to_string(),
        graphql_name: graphql_name.to_string(),
        primary_key: primary_key.to_string(),
        description: description.map(|d| d.to_string()),
        storage_location: None,
    }
}

fn register(builder: &mut SchemaBuilder, rows: &Rows) {
    let fields = rows.fields.iter().map(|f| f.clone()).collect();
    builder
        .register_table_from_path(rows.name, &format!("examples/data/{}.csv", rows.name), Ok(fields))
        .expect("Failed to register CSV table");
}

fn schema_of(rows: &Rows, graphql_name: &str, primary_key: &str) -> Schema {
    let mut builder = SchemaBuilder::new();
    register(&mut builder, rows);
    builder
        .build_schema(vec![entity(rows.name, graphql_name, primary_key, None)])
        .expect("Failed to build schema")
}

fn arg(name: &str, value: Value) -> Argument {
    Argument { name: name.to_string(), value: Input::Value(value) }
}

fn get(schema: &Schema, rows: &Rows, operation: &str, key: &str, id: &str) -> Option<RowObject> {
    let resolver = &schema.query().field(operation).unwrap().resolver;
    let query = resolver.plan(&vec![arg(key, Value::String(id.to_string()))]).unwrap().unwrap();
    complete_lookup(rows.execute(&query)).expect("Query had errors")
}

fn list(schema: &Schema, rows: &Rows, operation: &str, limit: i64, offset: i64) -> Vec<RowObject> {
    let resolver = &schema.query().field(operation).unwrap().resolver;
    let query = resolver
        .plan(&vec![arg("limit", Value::Integer(limit)), arg("offset", Value::Integer(offset))])
        .unwrap()
        .unwrap();
    complete_page(rows.execute(&query)).expect("Query had errors")
}

#[test]
fn test_word_frequency_schema_generation() {
    let mut builder = SchemaBuilder::new();
    register(&mut builder, &word_frequency());

    let entity = entity(
        "word_frequency",
        "WordFrequency",
        "word_id",
        Some("Word frequency data from corpus"),
    );

    let schema = builder.build_schema(vec![entity]).expect("Failed to build schema");
    assert_eq!(schema.objects()[0].name, "WordFrequency");
    assert_eq!(
        schema.objects()[0].description.as_deref(),
        Some("Word frequency data from corpus")
    );
}

#[test]
fn test_nouns_schema_generation() {
    let mut builder = SchemaBuilder::new();
    register(&mut builder, &nouns());

    let entity = entity("nouns", "Noun", "noun_id", Some("Noun definitions and examples"));

    let schema = builder.build_schema(vec![entity]).expect("Failed to build schema");
    assert_eq!(schema.objects()[0].fields.len(), 7);
}

#[test]
fn test_verbs_schema_generation() {
    let mut builder = SchemaBuilder::new();
    register(&mut builder, &verbs());

    let entity = entity("verbs", "Verb", "verb_id", Some("Verb definitions and examples"));

    let schema = builder.build_schema(vec![entity]).expect("Failed to build schema");
    assert_eq!(schema.objects()[0].fields.len(), 9);
}

#[test]
fn test_multiple_entities() {
    let mut builder = SchemaBuilder::new();
    register(&mut builder, &nouns());
    register(&mut builder, &verbs());

    let entities = vec![
        entity("nouns", "Noun", "noun_id", Some("Noun definitions")),
        entity("verbs", "Verb", "verb_id", Some("Verb definitions")),
    ];

    let schema =
        builder.build_schema(entities).expect("Failed to build schema with multiple entities");
    let operations: Vec<&str> = schema.query().fields.iter().map(|f| f.name.as_str()).collect();
    assert_eq!(operations, vec!["noun", "list_noun", "verb", "list_verb"]);
}

#[test]
fn test_query_execution_get_by_id() {
    let rows = word_frequency();
    let schema = schema_of(&rows, "WordFrequency", "word_id");

    let word_freq = get(&schema, &rows, "word_frequency", "word_id", "1");
    assert!(word_freq.is_some(), "word_frequency should not be null");

    let word_freq = word_freq.unwrap();
    let word = word_freq.get("word").expect("Missing word field");
    assert_eq!(word, &Value::String("the".to_string()), "Expected word 'the'");
}

#[test]
fn test_query_execution_list() {
    let rows = nouns();
    let schema = schema_of(&rows, "Noun", "noun_id");

    let nouns_array = list(&schema, &rows, "list_noun", 5, 0);

    assert!(nouns_array.len() > 0, "Expected at least one noun");
    assert!(nouns_array.len() <= 5, "Expected at most 5 nouns");

    let first_noun = &nouns_array[0];
    assert!(first_noun.get("noun_id").is_some(), "Missing noun_id");
    assert!(first_noun.get("word").is_some(), "Missing word");
    assert!(first_noun.get("type").is_some(), "Missing type");
}

#[test]
fn test_timestamp_handling() {
    let rows = verbs();
    let schema = schema_of(&rows, "Verb", "verb_id");

    let verb = get(&schema, &rows, "verb", "verb_id", "1").expect("Missing verb field");
    let created_at = verb.get("created_at").expect("Missing created_at field");
    let timestamp_str = match created_at {
        Value::String(s) => s.as_str(),
        _ => panic!("created_at should be a string"),
    };

    assert!(timestamp_str.contains("T"), "Timestamp should contain 'T' separator");
    assert!(
        timestamp_str.contains("Z") || timestamp_str.contains("+"),
        "Timestamp should contain timezone indicator"
    );
    assert_eq!(timestamp_str, "2024-01-01T00:01:00+00:00");
}

#[test]
fn test_pagination_offset() {
    let rows = word_frequency();
    let schema = schema_of(&rows, "WordFrequency", "word_id");

    let page1 = list(&schema, &rows, "list_word_frequency", 3, 0);
    let page2 = list(&schema, &rows, "list_word_frequency", 3, 3);

    assert_eq!(page1.len(), 3, "First page should have 3 items");
    assert_eq!(page2.len(), 3, "Second page should have 3 items");

    let first_word_page1 = page1[0].get("word").unwrap();
    let first_word_page2 = page2[0].get("word").unwrap();
    assert_ne!(first_word_page1, first_word_page2, "Pages should have different data");
}

#[test]
fn test_null_handling() {
    let rows = nouns();
    let schema = schema_of(&rows, "Noun", "noun_id");

    let noun = get(&schema, &rows, "noun", "noun_id", "99999");
    assert!(noun.is_none(), "Non-existent noun should return null");
}

#[test]
fn test_type_mapping_integers() {
    let rows = word_frequency();
    let schema = schema_of(&rows, "WordFrequency", "word_id");

    let word_freq = get(&schema, &rows, "word_frequency", "word_id", "1").unwrap();

    let word_id = word_freq.get("word_id").unwrap();
    assert!(matches!(word_id, Value::String(_)), "word_id should be string (ID type)");

    let frequency = word_freq.get("frequency_per_million").unwrap();
    assert!(matches!(frequency, Value::Integer(_)), "frequency_per_million should be a number");

    let rank = word_freq.get("rank").unwrap();
    assert!(matches!(rank, Value::Integer(_)), "rank should be a number");
}
