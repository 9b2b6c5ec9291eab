use nouninator::cli::convert::{
    convert_example_data, get_adjectives_schema, get_nouns_schema, get_sentences_schema,
    get_synonyms_schema, get_verbs_schema, get_word_frequency_schema,
};
use nouninator::cli::example::{
    create_example_entities, get_table_metadata, infer_primary_key_from_columns,
    infer_primary_key_from_name, parse_csv_headers,
};
use nouninator::cli::init::{catalog_config, example_config};
use nouninator::cli::serve::{determine_table_path, server_port};
use nouninator::config::validate_config;
use nouninator::schema::{DataType, FieldDescriptor, TimeUnit};
use nouninator::EntityConfig;

fn unread() -> Vec<Option<Vec<String>>> {
    vec![None, None, None, None, None, None]
}

fn names(columns: &[&str]) -> Vec<String> {
    columns.iter().map(|c| c.to_string()).collect()
}

#[test]
fn test_create_example_entities() {
    let mut headers = unread();
    headers[4] = Some(names(&["id", "word1", "word2", "similarity_score", "context", "created_at"]));
    let entities = create_example_entities(&headers);

    assert_eq!(entities.len(), 6);

    for entity in &entities {
        assert!(entity.validate().is_ok(), "Entity {} failed validation", entity.graphql_name);
    }

    let noun = entities.iter().find(|e| e.graphql_name == "Noun");
    assert!(noun.is_some());
    assert_eq!(noun.unwrap().table, "language.parts_of_speech.nouns");
    assert_eq!(noun.unwrap().primary_key, "noun_id");

    let verb = entities.iter().find(|e| e.graphql_name == "Verb");
    assert!(verb.is_some());
    assert_eq!(verb.unwrap().primary_key, "verb_id");

    let synonym = entities.iter().find(|e| e.graphql_name == "Synonym");
    assert!(synonym.is_some());
    assert_eq!(synonym.unwrap().primary_key, "id");

    for entity in &entities {
        assert!(entity.description.is_some(), "Entity {} missing description", entity.graphql_name);
    }
}

#[test]
fn test_entity_naming_conventions() {
    let entities = create_example_entities(&unread());

    for entity in &entities {
        assert!(
            entity.graphql_name.chars().next().unwrap().is_uppercase(),
            "Entity {} not PascalCase",
            entity.graphql_name
        );

        assert_eq!(
            entity.table.split('.').count(),
            3,
            "Entity {} has invalid table format",
            entity.table
        );

        assert!(
            !entity.primary_key.is_empty(),
            "Entity {} has empty primary key",
            entity.graphql_name
        );
    }
}

#[test]
fn test_infer_primary_key_from_columns() {
    let columns = vec!["noun_id".to_string(), "word".to_string(), "type".to_string()];
    let pk = infer_primary_key_from_columns(&columns, "nouns.csv");
    assert_eq!(pk, "noun_id");

    let columns = vec!["id".to_string(), "word1".to_string(), "word2".to_string()];
    let pk = infer_primary_key_from_columns(&columns, "synonyms.csv");
    assert_eq!(pk, "id");

    let columns = vec!["custom_key".to_string(), "data".to_string()];
    let pk = infer_primary_key_from_columns(&columns, "test.csv");
    assert_eq!(pk, "custom_key");
}

#[test]
fn test_infer_primary_key_from_name() {
    assert_eq!(infer_primary_key_from_name("nouns.csv"), "noun_id");
    assert_eq!(infer_primary_key_from_name("verbs.csv"), "verb_id");
    assert_eq!(infer_primary_key_from_name("word_frequency.csv"), "word_frequency_id");
}

#[test]
fn test_get_table_metadata() {
    let metadata = get_table_metadata();

    assert_eq!(metadata.len(), 6);

    assert!(metadata.iter().any(|m| m.csv_file == "nouns.csv"));
    assert!(metadata.iter().any(|m| m.csv_file == "verbs.csv"));
    assert!(metadata.iter().any(|m| m.csv_file == "adjectives.csv"));

    for meta in &metadata {
        assert!(!meta.csv_file.is_empty());
        assert!(!meta.catalog.is_empty());
        assert!(!meta.schema.is_empty());
        assert!(!meta.graphql_name.is_empty());
        assert!(!meta.description.is_empty());
    }
}

#[test]
fn the_example_tables_in_order() {
    let tables = get_table_metadata();
    let listed: Vec<(&str, &str, &str, &str)> =
        tables.iter().map(|t| (t.csv_file, t.catalog, t.schema, t.graphql_name)).collect();
    assert_eq!(
        listed,
        vec![
            ("nouns.csv", "language", "parts_of_speech", "Noun"),
            ("verbs.csv", "language", "parts_of_speech", "Verb"),
            ("adjectives.csv", "language", "parts_of_speech", "Adjective"),
            ("sentences.csv", "language", "syntax", "Sentence"),
            ("synonyms.csv", "language", "relationships", "Synonym"),
            ("word_frequency.csv", "language", "metrics", "WordFrequency"),
        ]
    );
    assert_eq!(
        tables[0].description,
        "A person, place, thing, or idea. Core entities in language."
    );
    assert_eq!(tables[5].description, "Usage statistics for words across different corpora.");
}

#[test]
fn entities_of_files_that_were_read() {
    let headers = vec![
        Some(names(&["noun_id", "word"])),
        Some(names(&["word", "other_id", "verb_id"])),
        Some(names(&["word", "degree"])),
        Some(vec![]),
    ];
    let entities = create_example_entities(&headers);
    assert_eq!(entities.len(), 6);
    assert_eq!(entities[0].table, "nouns");
    assert_eq!(entities[0].primary_key, "noun_id");
    assert_eq!(entities[0].storage_location.as_deref(), Some("examples/delta/nouns"));
    assert_eq!(
        entities[0].description.as_deref(),
        Some("A person, place, thing, or idea. Core entities in language.")
    );
    assert_eq!(entities[1].table, "verbs");
    assert_eq!(entities[1].primary_key, "verb_id");
    assert_eq!(entities[2].table, "adjectives");
    assert_eq!(entities[2].primary_key, "word");
    assert_eq!(entities[3].table, "sentences");
    assert_eq!(entities[3].primary_key, "id");
    assert_eq!(entities[4].table, "language.relationships.synonyms");
    assert_eq!(entities[4].primary_key, "synonym_id");
    assert_eq!(entities[4].storage_location.as_deref(), Some("examples/delta/synonyms"));
    assert_eq!(entities[5].table, "language.metrics.word_frequency");
    assert_eq!(entities[5].primary_key, "word_frequency_id");
    assert_eq!(entities[5].graphql_name, "WordFrequency");
    let none = create_example_entities(&vec![]);
    assert_eq!(none.len(), 6);
    assert_eq!(none[0].table, "language.parts_of_speech.nouns");
}

#[test]
fn primary_keys_from_names() {
    assert_eq!(infer_primary_key_from_name("class.csv"), "cla_id");
    assert_eq!(infer_primary_key_from_name("sss.csv"), "_id");
    assert_eq!(infer_primary_key_from_name("data"), "data_id");
    assert_eq!(infer_primary_key_from_name(""), "_id");
    assert_eq!(infer_primary_key_from_name("a.csv.csv"), "a_id");
    assert_eq!(infer_primary_key_from_name("logs.csv.bak"), "logs.bak_id");
    assert_eq!(infer_primary_key_from_name("items.CSV"), "items.CSV_id");
}

#[test]
fn primary_keys_from_columns() {
    assert_eq!(
        infer_primary_key_from_columns(&names(&["a_id", "verb_id", "id"]), "verbs.csv"),
        "verb_id"
    );
    assert_eq!(
        infer_primary_key_from_columns(&names(&["x", "a_id", "b_id", "id"]), "verbs.csv"),
        "a_id"
    );
    assert_eq!(infer_primary_key_from_columns(&names(&["x", "id", "y"]), "verbs.csv"), "id");
    assert_eq!(infer_primary_key_from_columns(&names(&["x", "y"]), "verbs.csv"), "x");
    assert_eq!(infer_primary_key_from_columns(&names(&[]), "verbs.csv"), "id");
}

#[test]
fn headers_of_a_file() {
    assert_eq!(parse_csv_headers("noun_id,word,type\n"), names(&["noun_id", "word", "type"]));
    assert_eq!(parse_csv_headers("  a , b,c \r\n"), names(&["a", "b", "c"]));
    assert_eq!(parse_csv_headers("single"), names(&["single"]));
    assert_eq!(parse_csv_headers(""), names(&[""]));
    assert_eq!(parse_csv_headers(",a,,b,"), names(&["", "a", "", "b", ""]));
    assert_eq!(parse_csv_headers(" \t "), names(&[""]));
    assert_eq!(parse_csv_headers("a b ,\u{a0}c\u{3000}"), names(&["a b", "c"]));
}

#[test]
fn the_path_of_a_table() {
    let mut entity = EntityConfig {
        table: "main.sales.customers".to_string(),
        graphql_name: "Customer".to_string(),
        primary_key: "id".to_string(),
        description: None,
        storage_location: Some("s3://bucket/customers".to_string()),
    };
    assert_eq!(determine_table_path(&entity), "s3://bucket/customers");
    entity.storage_location = None;
    assert_eq!(determine_table_path(&entity), "main.sales.customers");
}

#[test]
fn the_port_of_the_server() {
    assert_eq!(server_port(4000, 4000), 4000);
    assert_eq!(server_port(4000, 8080), 8080);
    assert_eq!(server_port(9000, 8080), 9000);
    assert_eq!(server_port(9000, 4000), 9000);
    assert_eq!(server_port(0, 8080), 0);
}

#[test]
fn the_configurations_of_init() {
    let config = example_config(create_example_entities(&unread()));
    assert!(config.databricks.is_none());
    assert_eq!(config.server.port, 4000);
    assert_eq!(config.server.bind, "0.0.0.0");
    assert_eq!(config.entity.len(), 6);
    assert!(validate_config(&config).is_ok());
    let config = catalog_config("https://workspace".to_string(), vec![]);
    assert_eq!(config.databricks.as_ref().unwrap().host, "https://workspace");
    assert_eq!(config.server.port, 4000);
    assert_eq!(config.server.bind, "0.0.0.0");
    assert!(config.entity.is_empty());
}

fn shape(schema: &[FieldDescriptor]) -> Vec<(String, DataType, bool)> {
    schema.iter().map(|f| (f.name.clone(), f.data_type, f.nullable)).collect()
}

fn expected(columns: &[(&str, DataType)]) -> Vec<(String, DataType, bool)> {
    columns.iter().map(|(n, t)| (n.to_string(), *t, false)).collect()
}

const INSTANT: DataType = DataType::Timestamp(TimeUnit::Microsecond);

#[test]
fn the_columns_of_the_example_files() {
    assert_eq!(
        shape(&get_nouns_schema()),
        expected(&[
            ("noun_id", DataType::Int64),
            ("word", DataType::Utf8),
            ("type", DataType::Utf8),
            ("definition", DataType::Utf8),
            ("example_usage", DataType::Utf8),
            ("frequency_rank", DataType::Int64),
            ("created_at", INSTANT),
        ])
    );
    assert_eq!(
        shape(&get_verbs_schema()),
        expected(&[
            ("verb_id", DataType::Int64),
            ("word", DataType::Utf8),
            ("tense", DataType::Utf8),
            ("type", DataType::Utf8),
            ("definition", DataType::Utf8),
            ("example_usage", DataType::Utf8),
            ("transitivity", DataType::Utf8),
            ("frequency_rank", DataType::Int64),
            ("created_at", INSTANT),
        ])
    );
    assert_eq!(
        shape(&get_adjectives_schema()),
        expected(&[
            ("adjective_id", DataType::Int64),
            ("word", DataType::Utf8),
            ("degree", DataType::Utf8),
            ("type", DataType::Utf8),
            ("definition", DataType::Utf8),
            ("example_usage", DataType::Utf8),
            ("frequency_rank", DataType::Int64),
            ("created_at", INSTANT),
        ])
    );
    assert_eq!(
        shape(&get_sentences_schema()),
        expected(&[
            ("sentence_id", DataType::Int64),
            ("text", DataType::Utf8),
            ("type", DataType::Utf8),
            ("complexity", DataType::Utf8),
            ("subject", DataType::Utf8),
            ("predicate", DataType::Utf8),
            ("word_count", DataType::Int64),
            ("created_at", INSTANT),
        ])
    );
    assert_eq!(
        shape(&get_synonyms_schema()),
        expected(&[
            ("id", DataType::Int64),
            ("word1", DataType::Utf8),
            ("word2", DataType::Utf8),
            ("similarity_score", DataType::Float64),
            ("context", DataType::Utf8),
            ("created_at", INSTANT),
        ])
    );
    assert_eq!(
        shape(&get_word_frequency_schema()),
        expected(&[
            ("word_id", DataType::Int64),
            ("word", DataType::Utf8),
            ("part_of_speech", DataType::Utf8),
            ("frequency_per_million", DataType::Int64),
            ("corpus", DataType::Utf8),
            ("rank", DataType::Int64),
            ("last_updated", INSTANT),
        ])
    );
}

#[test]
fn the_plan_of_the_example_conversion() {
    let jobs = convert_example_data("examples/delta");
    let paths: Vec<(&str, &str, &str)> = jobs
        .iter()
        .map(|j| (j.csv_file.as_str(), j.csv_path.as_str(), j.delta_path.as_str()))
        .collect();
    assert_eq!(
        paths,
        vec![
            ("nouns.csv", "examples/data/nouns.csv", "examples/delta/nouns"),
            ("verbs.csv", "examples/data/verbs.csv", "examples/delta/verbs"),
            ("adjectives.csv", "examples/data/adjectives.csv", "examples/delta/adjectives"),
            ("sentences.csv", "examples/data/sentences.csv", "examples/delta/sentences"),
            ("synonyms.csv", "examples/data/synonyms.csv", "examples/delta/synonyms"),
            (
                "word_frequency.csv",
                "examples/data/word_frequency.csv",
                "examples/delta/word_frequency"
            ),
        ]
    );
    assert_eq!(shape(&jobs[4].schema), shape(&get_synonyms_schema()));
    assert_eq!(jobs[0].schema.len(), 7);
    assert_eq!(convert_example_data("")[1].delta_path, "/verbs");
}
