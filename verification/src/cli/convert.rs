//! The conversion of the example files into tables: which files, with which
//! columns, from where to where.

use vstd::prelude::*;
use crate::cli::example::table_name_of;
use crate::schema::column::{field_views, DataType, FieldDescriptor, FieldView, TimeUnit};
use crate::text::{concat3, remove_all};

verus! {

/// The directory of the example files.
pub const CSV_DIR: &'static str = "examples/data";

/// A column of whole numbers that is never null.
pub open spec fn integer_column(name: Seq<char>) -> FieldView {
    FieldView { name, data_type: DataType::Int64, nullable: false }
}

/// A column of texts that is never null.
pub open spec fn text_column(name: Seq<char>) -> FieldView {
    FieldView { name, data_type: DataType::Utf8, nullable: false }
}

/// A column of floating-point numbers that is never null.
pub open spec fn float_column(name: Seq<char>) -> FieldView {
    FieldView { name, data_type: DataType::Float64, nullable: false }
}

/// A column of instants counted in microseconds that is never null.
pub open spec fn instant_column(name: Seq<char>) -> FieldView {
    FieldView { name, data_type: DataType::Timestamp(TimeUnit::Microsecond), nullable: false }
}

fn integer(name: &str) -> (f: FieldDescriptor)
    ensures
        f@ == integer_column(name@),
{
    FieldDescriptor::new(name, DataType::Int64, false)
}

fn text(name: &str) -> (f: FieldDescriptor)
    ensures
        f@ == text_column(name@),
{
    FieldDescriptor::new(name, DataType::Utf8, false)
}

fn float(name: &str) -> (f: FieldDescriptor)
    ensures
        f@ == float_column(name@),
{
    FieldDescriptor::new(name, DataType::Float64, false)
}

fn instant(name: &str) -> (f: FieldDescriptor)
    ensures
        f@ == instant_column(name@),
{
    FieldDescriptor::new(name, DataType::Timestamp(TimeUnit::Microsecond), false)
}

/// The columns of the nouns.
pub open spec fn nouns_schema() -> Seq<FieldView> {
    seq![
        integer_column("noun_id"@),
        text_column("word"@),
        text_column("type"@),
        text_column("definition"@),
        text_column("example_usage"@),
        integer_column("frequency_rank"@),
        instant_column("created_at"@),
    ]
}

/// The columns of the verbs.
pub open spec fn verbs_schema() -> Seq<FieldView> {
    seq![
        integer_column("verb_id"@),
        text_column("word"@),
        text_column("tense"@),
        text_column("type"@),
        text_column("definition"@),
        text_column("example_usage"@),
        text_column("transitivity"@),
        integer_column("frequency_rank"@),
        instant_column("created_at"@),
    ]
}

/// The columns of the adjectives.
pub open spec fn adjectives_schema() -> Seq<FieldView> {
    seq![
        integer_column("adjective_id"@),
        text_column("word"@),
        text_column("degree"@),
        text_column("type"@),
        text_column("definition"@),
        text_column("example_usage"@),
        integer_column("frequency_rank"@),
        instant_column("created_at"@),
    ]
}

/// The columns of the sentences.
pub open spec fn sentences_schema() -> Seq<FieldView> {
    seq![
        integer_column("sentence_id"@),
        text_column("text"@),
        text_column("type"@),
        text_column("complexity"@),
        text_column("subject"@),
        text_column("predicate"@),
        integer_column("word_count"@),
        instant_column("created_at"@),
    ]
}

/// The columns of the synonyms.
pub open spec fn synonyms_schema() -> Seq<FieldView> {
    seq![
        integer_column("id"@),
        text_column("word1"@),
        text_column("word2"@),
        float_column("similarity_score"@),
        text_column("context"@),
        instant_column("created_at"@),
    ]
}

/// The columns of the word frequencies.
pub open spec fn word_frequency_schema() -> Seq<FieldView> {
    seq![
        integer_column("word_id"@),
        text_column("word"@),
        text_column("part_of_speech"@),
        integer_column("frequency_per_million"@),
        text_column("corpus"@),
        integer_column("rank"@),
        instant_column("last_updated"@),
    ]
}

/// The columns of the nouns.
pub fn get_nouns_schema() -> (schema: Vec<FieldDescriptor>)
    ensures
        field_views(schema@) == nouns_schema(),
{
    let mut schema: Vec<FieldDescriptor> = Vec::new();
    schema.push(integer("noun_id"));
    schema.push(text("word"));
    schema.push(text("type"));
    schema.push(text("definition"));
    schema.push(text("example_usage"));
    schema.push(integer("frequency_rank"));
    schema.push(instant("created_at"));
    proof {
        assert(field_views(schema@) =~= nouns_schema());
    }
    schema
}

/// The columns of the verbs.
pub fn get_verbs_schema() -> (schema: Vec<FieldDescriptor>)
    ensures
        field_views(schema@) == verbs_schema(),
{
    let mut schema: Vec<FieldDescriptor> = Vec::new();
    schema.push(integer("verb_id"));
    schema.push(text("word"));
    schema.push(text("tense"));
    schema.push(text("type"));
    schema.push(text("definition"));
    schema.push(text("example_usage"));
    schema.push(text("transitivity"));
    schema.push(integer("frequency_rank"));
    schema.push(instant("created_at"));
    proof {
        assert(field_views(schema@) =~= verbs_schema());
    }
    schema
}

/// The columns of the adjectives.
pub fn get_adjectives_schema() -> (schema: Vec<FieldDescriptor>)
    ensures
        field_views(schema@) == adjectives_schema(),
{
    let mut schema: Vec<FieldDescriptor> = Vec::new();
    schema.push(integer("adjective_id"));
    schema.push(text("word"));
    schema.push(text("degree"));
    schema.push(text("type"));
    schema.push(text("definition"));
    schema.push(text("example_usage"));
    schema.push(integer("frequency_rank"));
    schema.push(instant("created_at"));
    proof {
        assert(field_views(schema@) =~= adjectives_schema());
    }
    schema
}

/// The columns of the sentences.
pub fn get_sentences_schema() -> (schema: Vec<FieldDescriptor>)
    ensures
        field_views(schema@) == sentences_schema(),
{
    let mut schema: Vec<FieldDescriptor> = Vec::new();
    schema.push(integer("sentence_id"));
    schema.push(text("text"));
    schema.push(text("type"));
    schema.push(text("complexity"));
    schema.push(text("subject"));
    schema.push(text("predicate"));
    schema.push(integer("word_count"));
    schema.push(instant("created_at"));
    proof {
        assert(field_views(schema@) =~= sentences_schema());
    }
    schema
}

/// The columns of the synonyms.
pub fn get_synonyms_schema() -> (schema: Vec<FieldDescriptor>)
    ensures
        field_views(schema@) == synonyms_schema(),
{
    let mut schema: Vec<FieldDescriptor> = Vec::new();
    schema.push(integer("id"));
    schema.push(text("word1"));
    schema.push(text("word2"));
    schema.push(float("similarity_score"));
    schema.push(text("context"));
    schema.push(instant("created_at"));
    proof {
        assert(field_views(schema@) =~= synonyms_schema());
    }
    schema
}

/// The columns of the word frequencies.
pub fn get_word_frequency_schema() -> (schema: Vec<FieldDescriptor>)
    ensures
        field_views(schema@) == word_frequency_schema(),
{
    let mut schema: Vec<FieldDescriptor> = Vec::new();
    schema.push(integer("word_id"));
    schema.push(text("word"));
    schema.push(text("part_of_speech"));
    schema.push(integer("frequency_per_million"));
    schema.push(text("corpus"));
    schema.push(integer("rank"));
    schema.push(instant("last_updated"));
    proof {
        assert(field_views(schema@) =~= word_frequency_schema());
    }
    schema
}

/// The conversion of one example file.
#[derive(Debug)]
pub struct ConversionJob {
    /// The name of the file.
    pub csv_file: String,
    /// The path of the file.
    pub csv_path: String,
    /// The path of the table that is made of it.
    pub delta_path: String,
    /// The columns of the file.
    pub schema: Vec<FieldDescriptor>,
}

/// A conversion in contracts.
pub struct JobView {
    pub csv_file: Seq<char>,
    pub csv_path: Seq<char>,
    pub delta_path: Seq<char>,
    pub schema: Seq<FieldView>,
}

impl View for ConversionJob {
    type V = JobView;

    open spec fn view(&self) -> JobView {
        JobView {
            csv_file: self.csv_file@,
            csv_path: self.csv_path@,
            delta_path: self.delta_path@,
            schema: field_views(self.schema@),
        }
    }
}

/// The conversions in contracts.
pub open spec fn job_views(jobs: Seq<ConversionJob>) -> Seq<JobView> {
    Seq::new(jobs.len(), |i: int| jobs[i]@)
}

/// The conversion of the file `csv_file` with the given columns: from the
/// directory of the example files to the directory of its table name under
/// `output_dir`.
pub open spec fn job_for(csv_file: Seq<char>, schema: Seq<FieldView>, output_dir: Seq<char>) -> JobView {
    JobView {
        csv_file,
        csv_path: CSV_DIR@ + "/"@ + csv_file,
        delta_path: output_dir + "/"@ + table_name_of(csv_file),
        schema,
    }
}

/// The conversions of all example files, in order.
pub open spec fn example_jobs(output_dir: Seq<char>) -> Seq<JobView> {
    seq![
        job_for("nouns.csv"@, nouns_schema(), output_dir),
        job_for("verbs.csv"@, verbs_schema(), output_dir),
        job_for("adjectives.csv"@, adjectives_schema(), output_dir),
        job_for("sentences.csv"@, sentences_schema(), output_dir),
        job_for("synonyms.csv"@, synonyms_schema(), output_dir),
        job_for("word_frequency.csv"@, word_frequency_schema(), output_dir),
    ]
}

fn job(csv_file: &str, schema: Vec<FieldDescriptor>, output_dir: &str) -> (job: ConversionJob)
    ensures
        job@ == job_for(csv_file@, field_views(schema@), output_dir@),
{
    let table_name = remove_all(csv_file, ".csv");
    ConversionJob {
        csv_file: csv_file.to_owned(),
        csv_path: concat3(CSV_DIR, "/", csv_file),
        delta_path: concat3(output_dir, "/", table_name.as_str()),
        schema,
    }
}

/// Plans the conversion of the example files into tables under
/// `output_dir`.
pub fn convert_example_data(output_dir: &str) -> (jobs: Vec<ConversionJob>)
    ensures
        job_views(jobs@) == example_jobs(output_dir@),
{
    let mut jobs: Vec<ConversionJob> = Vec::new();
    jobs.push(job("nouns.csv", get_nouns_schema(), output_dir));
    jobs.push(job("verbs.csv", get_verbs_schema(), output_dir));
    jobs.push(job("adjectives.csv", get_adjectives_schema(), output_dir));
    jobs.push(job("sentences.csv", get_sentences_schema(), output_dir));
    jobs.push(job("synonyms.csv", get_synonyms_schema(), output_dir));
    jobs.push(job("word_frequency.csv", get_word_frequency_schema(), output_dir));
    proof {
        assert(job_views(jobs@) =~= example_jobs(output_dir@));
    }
    jobs
}

} // verus!
