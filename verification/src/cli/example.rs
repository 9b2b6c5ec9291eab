//! The example tables and the entities that expose them.

use vstd::prelude::*;
use crate::config::types::{entity_views, EntityConfig, EntityView};
use crate::text::{
    concat2, contains_name, contains_text, find_with_suffix, first_with_suffix, remove_all, split,
    split_on, texts, trim, trim_end_matches, trimmed, without_pattern, without_trailing,
};
use crate::unity::discovery::{full_name, qualified_name};

verus! {

/// An example table: its file, where it belongs, the name of its type and
/// its description.
#[derive(Debug, Clone, Copy)]
pub struct TableMetadata {
    pub csv_file: &'static str,
    pub catalog: &'static str,
    pub schema: &'static str,
    pub graphql_name: &'static str,
    pub description: &'static str,
}

/// An example table in contracts.
pub struct ExampleView {
    pub csv_file: Seq<char>,
    pub catalog: Seq<char>,
    pub schema: Seq<char>,
    pub graphql_name: Seq<char>,
    pub description: Seq<char>,
}

impl View for TableMetadata {
    type V = ExampleView;

    open spec fn view(&self) -> ExampleView {
        ExampleView {
            csv_file: self.csv_file@,
            catalog: self.catalog@,
            schema: self.schema@,
            graphql_name: self.graphql_name@,
            description: self.description@,
        }
    }
}

/// The example tables in contracts.
pub open spec fn example_views(tables: Seq<TableMetadata>) -> Seq<ExampleView> {
    Seq::new(tables.len(), |i: int| tables[i]@)
}

/// The six example tables.
pub open spec fn example_tables() -> Seq<ExampleView> {
    seq![
        ExampleView {
            csv_file: "nouns.csv"@,
            catalog: "language"@,
            schema: "parts_of_speech"@,
            graphql_name: "Noun"@,
            description: "A person, place, thing, or idea. Core entities in language."@,
        },
        ExampleView {
            csv_file: "verbs.csv"@,
            catalog: "language"@,
            schema: "parts_of_speech"@,
            graphql_name: "Verb"@,
            description: "Action words that express what someone or something does."@,
        },
        ExampleView {
            csv_file: "adjectives.csv"@,
            catalog: "language"@,
            schema: "parts_of_speech"@,
            graphql_name: "Adjective"@,
            description: "Descriptive words that modify nouns and pronouns."@,
        },
        ExampleView {
            csv_file: "sentences.csv"@,
            catalog: "language"@,
            schema: "syntax"@,
            graphql_name: "Sentence"@,
            description: "Complete grammatical units expressing a complete thought."@,
        },
        ExampleView {
            csv_file: "synonyms.csv"@,
            catalog: "language"@,
            schema: "relationships"@,
            graphql_name: "Synonym"@,
            description: "Words with similar meanings in specific contexts."@,
        },
        ExampleView {
            csv_file: "word_frequency.csv"@,
            catalog: "language"@,
            schema: "metrics"@,
            graphql_name: "WordFrequency"@,
            description: "Usage statistics for words across different corpora."@,
        },
    ]
}

/// The metadata of all example tables.
pub fn get_table_metadata() -> (tables: Vec<TableMetadata>)
    ensures
        example_views(tables@) == example_tables(),
{
    let mut tables: Vec<TableMetadata> = Vec::new();
    tables.push(
        TableMetadata {
            csv_file: "nouns.csv",
            catalog: "language",
            schema: "parts_of_speech",
            graphql_name: "Noun",
            description: "A person, place, thing, or idea. Core entities in language.",
        },
    );
    tables.push(
        TableMetadata {
            csv_file: "verbs.csv",
            catalog: "language",
            schema: "parts_of_speech",
            graphql_name: "Verb",
            description: "Action words that express what someone or something does.",
        },
    );
    tables.push(
        TableMetadata {
            csv_file: "adjectives.csv",
            catalog: "language",
            schema: "parts_of_speech",
            graphql_name: "Adjective",
            description: "Descriptive words that modify nouns and pronouns.",
        },
    );
    tables.push(
        TableMetadata {
            csv_file: "sentences.csv",
            catalog: "language",
            schema: "syntax",
            graphql_name: "Sentence",
            description: "Complete grammatical units expressing a complete thought.",
        },
    );
    tables.push(
        TableMetadata {
            csv_file: "synonyms.csv",
            catalog: "language",
            schema: "relationships",
            graphql_name: "Synonym",
            description: "Words with similar meanings in specific contexts.",
        },
    );
    tables.push(
        TableMetadata {
            csv_file: "word_frequency.csv",
            catalog: "language",
            schema: "metrics",
            graphql_name: "WordFrequency",
            description: "Usage statistics for words across different corpora.",
        },
    );
    proof {
        assert(example_views(tables@) =~= example_tables());
    }
    tables
}

/// The column names in the first line of a file of comma-separated values:
/// the pieces between the commas of the line without the white space at its
/// ends, each without the white space at its ends.
pub open spec fn csv_headers(first_line: Seq<char>) -> Seq<Seq<char>> {
    let pieces = split_on(trimmed(first_line), ',');
    Seq::new(pieces.len(), |i: int| trimmed(pieces[i]))
}

/// Reads the column names from the first line of a file of comma-separated
/// values.
pub fn parse_csv_headers(first_line: &str) -> (headers: Vec<String>)
    ensures
        texts(headers@) == csv_headers(first_line@),
{
    let line = trim(first_line);
    let pieces = split(line.as_str(), ',');
    let mut headers: Vec<String> = Vec::new();
    let mut i: usize = 0;
    while i < pieces.len()
        invariant
            i <= pieces.len(),
            texts(pieces@) == split_on(trimmed(first_line@), ','),
            texts(headers@) == csv_headers(first_line@).take(i as int),
        decreases pieces.len() - i,
    {
        let ghost before = headers@;
        headers.push(trim(pieces[i].as_str()));
        proof {
            assert(texts(pieces@)[i as int] == pieces@[i as int]@);
            assert(texts(headers@) =~= texts(before).push(trimmed(pieces@[i as int]@)));
            assert(csv_headers(first_line@).take(i + 1) =~= csv_headers(first_line@).take(
                i as int,
            ).push(trimmed(pieces@[i as int]@)));
        }
        i = i + 1;
    }
    proof {
        assert(csv_headers(first_line@).take(pieces.len() as int) == csv_headers(first_line@));
    }
    headers
}

/// The name of the table in a file: the file name without `.csv`.
pub open spec fn table_name_of(filename: Seq<char>) -> Seq<char> {
    without_pattern(filename, ".csv"@)
}

/// The primary key that the name of a file suggests: the table name without
/// the `s` at its end, then `_id`.
pub open spec fn key_from_name(filename: Seq<char>) -> Seq<char> {
    without_trailing(table_name_of(filename), 's') + "_id"@
}

/// The primary key among the columns of a file: the key that the file name
/// suggests, where it is a column; else the first column that ends in `_id`;
/// else `id`, where it is a column; else the first column; `id` without
/// columns.
pub open spec fn key_from_columns(columns: Seq<Seq<char>>, filename: Seq<char>) -> Seq<char> {
    if contains_name(columns, key_from_name(filename)) {
        key_from_name(filename)
    } else {
        match first_with_suffix(columns, "_id"@, columns.len()) {
            Some(i) => columns[i],
            None => if contains_name(columns, "id"@) {
                "id"@
            } else if columns.len() > 0 {
                columns[0]
            } else {
                "id"@
            },
        }
    }
}

/// Infers the primary key from the name of the file alone.
pub fn infer_primary_key_from_name(filename: &str) -> (key: String)
    ensures
        key@ == key_from_name(filename@),
{
    let table_name = remove_all(filename, ".csv");
    let singular = trim_end_matches(table_name.as_str(), 's');
    concat2(singular.as_str(), "_id")
}

/// Infers the primary key from the columns of the file.
pub fn infer_primary_key_from_columns(columns: &Vec<String>, filename: &str) -> (key: String)
    ensures
        key@ == key_from_columns(texts(columns@), filename@),
{
    let expected = infer_primary_key_from_name(filename);
    if contains_text(columns, expected.as_str()) {
        return expected;
    }
    match find_with_suffix(columns, "_id") {
        Some(i) => {
            return columns[i].clone();
        },
        None => {},
    }
    if contains_text(columns, "id") {
        return "id".to_owned();
    }
    if columns.len() > 0 {
        columns[0].clone()
    } else {
        "id".to_owned()
    }
}

/// What was read of the first lines of the example files, in contracts: for
/// each file the column names, or nothing where the file could not be read.
pub open spec fn header_views(headers: Seq<Option<Vec<String>>>) -> Seq<Option<Seq<Seq<char>>>> {
    Seq::new(
        headers.len(),
        |i: int|
            match headers[i] {
                Some(columns) => Some(texts(columns@)),
                None => None,
            },
    )
}

/// The column names of example table `i`, if they were read.
pub open spec fn header_of(headers: Seq<Option<Seq<Seq<char>>>>, i: int) -> Option<Seq<Seq<char>>> {
    if 0 <= i < headers.len() {
        headers[i]
    } else {
        None
    }
}

/// The entity of an example table. Where the columns of its file were read,
/// the table goes by its plain name and the primary key is inferred from the
/// columns; otherwise the table goes by its full name and the primary key is
/// inferred from the name of the file. Either way the table is stored under
/// `examples/delta/`.
pub open spec fn example_entity(table: ExampleView, header: Option<Seq<Seq<char>>>) -> EntityView {
    let table_name = table_name_of(table.csv_file);
    EntityView {
        table: match header {
            Some(_) => table_name,
            None => full_name(table.catalog, table.schema, table_name),
        },
        graphql_name: table.graphql_name,
        primary_key: match header {
            Some(columns) => key_from_columns(columns, table.csv_file),
            None => key_from_name(table.csv_file),
        },
        description: Some(table.description),
        storage_location: Some("examples/delta/"@ + table_name),
    }
}

/// The entities of all example tables, given what was read of their files.
pub open spec fn example_entities(headers: Seq<Option<Seq<Seq<char>>>>) -> Seq<EntityView> {
    Seq::new(
        example_tables().len(),
        |i: int| example_entity(example_tables()[i], header_of(headers, i)),
    )
}

/// Makes the entities of the example tables. `headers` holds, for each
/// example table in order, the column names read from its file, or `None`
/// where the file could not be read; a table without an entry counts as not
/// read.
pub fn create_example_entities(headers: &Vec<Option<Vec<String>>>) -> (entities: Vec<EntityConfig>)
    ensures
        entity_views(entities@) == example_entities(header_views(headers@)),
{
    let tables = get_table_metadata();
    let ghost read = header_views(headers@);
    let mut entities: Vec<EntityConfig> = Vec::new();
    let mut i: usize = 0;
    while i < tables.len()
        invariant
            i <= tables.len(),
            example_views(tables@) == example_tables(),
            read == header_views(headers@),
            entity_views(entities@) == example_entities(read).take(i as int),
        decreases tables.len() - i,
    {
        let table = &tables[i];
        proof {
            assert(example_views(tables@)[i as int] == table@);
        }
        let table_name = remove_all(table.csv_file, ".csv");
        let storage_location = concat2("examples/delta/", table_name.as_str());
        let entity = if i < headers.len() && headers[i].is_some() {
            let columns = headers[i].as_ref().unwrap();
            EntityConfig {
                table: table_name,
                graphql_name: table.graphql_name.to_owned(),
                primary_key: infer_primary_key_from_columns(columns, table.csv_file),
                description: Some(table.description.to_owned()),
                storage_location: Some(storage_location),
            }
        } else {
            EntityConfig {
                table: qualified_name(table.catalog, table.schema, table_name.as_str()),
                graphql_name: table.graphql_name.to_owned(),
                primary_key: infer_primary_key_from_name(table.csv_file),
                description: Some(table.description.to_owned()),
                storage_location: Some(storage_location),
            }
        };
        let ghost before = entities@;
        proof {
            assert(entity@ == example_entity(table@, header_of(read, i as int)));
        }
        entities.push(entity);
        proof {
            assert(entity_views(entities@) =~= entity_views(before).push(
                example_entities(read)[i as int],
            ));
            assert(example_entities(read).take(i + 1) =~= example_entities(read).take(
                i as int,
            ).push(example_entities(read)[i as int]));
        }
        i = i + 1;
    }
    proof {
        assert(example_views(tables@).len() == tables@.len());
        assert(example_entities(read).take(tables.len() as int) == example_entities(read));
    }
    entities
}

} // verus!
