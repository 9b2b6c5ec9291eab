//! The library's error type.

use vstd::prelude::*;

verus! {

/// The kinds of failure that the library reports.
#[derive(Clone, Copy, Debug, PartialEq, Eq, Structural)]
pub enum ErrorKind {
    /// The catalog service answered with an unexpected status.
    UnityApi,
    /// The catalog service could not be reached.
    Network,
    /// The catalog service refused the credentials.
    Unauthorized,
    /// A catalog, schema or table does not exist.
    TableNotFound,
    /// The storage layer failed.
    DeltaTable,
    /// The data engine failed outside of query execution.
    DataFusion,
    /// An entity descriptor or a configuration value is malformed.
    Config,
    /// The schema could not be compiled.
    SchemaGeneration,
    /// A resolver argument is missing or has the wrong type.
    Argument,
    /// The data engine failed to execute a query or to hand back its rows.
    Engine,
    /// A cell cannot be represented as an API value.
    Encoding,
    /// Reading or writing a file failed.
    Io,
    /// A value could not be serialised.
    Serialization,
}

/// A failure, with its message.
#[derive(Debug)]
pub enum NouninatorError {
    UnityApi(String),
    Network(String),
    Unauthorized(String),
    TableNotFound(String),
    DeltaTable(String),
    DataFusion(String),
    Config(String),
    SchemaGeneration(String),
    Argument(String),
    Engine(String),
    Encoding(String),
    Io(String),
    Serialization(String),
}

/// What an error is in contracts: its kind and the text of its message.
pub struct ErrorView {
    pub kind: ErrorKind,
    pub message: Seq<char>,
}

impl View for NouninatorError {
    type V = ErrorView;

    open spec fn view(&self) -> ErrorView {
        match self {
            NouninatorError::UnityApi(m) => ErrorView { kind: ErrorKind::UnityApi, message: m@ },
            NouninatorError::Network(m) => ErrorView { kind: ErrorKind::Network, message: m@ },
            NouninatorError::Unauthorized(m) => ErrorView {
                kind: ErrorKind::Unauthorized,
                message: m@,
            },
            NouninatorError::TableNotFound(m) => ErrorView {
                kind: ErrorKind::TableNotFound,
                message: m@,
            },
            NouninatorError::DeltaTable(m) => ErrorView { kind: ErrorKind::DeltaTable, message: m@ },
            NouninatorError::DataFusion(m) => ErrorView { kind: ErrorKind::DataFusion, message: m@ },
            NouninatorError::Config(m) => ErrorView { kind: ErrorKind::Config, message: m@ },
            NouninatorError::SchemaGeneration(m) => ErrorView {
                kind: ErrorKind::SchemaGeneration,
                message: m@,
            },
            NouninatorError::Argument(m) => ErrorView { kind: ErrorKind::Argument, message: m@ },
            NouninatorError::Engine(m) => ErrorView { kind: ErrorKind::Engine, message: m@ },
            NouninatorError::Encoding(m) => ErrorView { kind: ErrorKind::Encoding, message: m@ },
            NouninatorError::Io(m) => ErrorView { kind: ErrorKind::Io, message: m@ },
            NouninatorError::Serialization(m) => ErrorView {
                kind: ErrorKind::Serialization,
                message: m@,
            },
        }
    }
}

/// The words that introduce the message of an error of the given kind.
pub open spec fn kind_prefix(kind: ErrorKind) -> Seq<char> {
    match kind {
        ErrorKind::UnityApi => "Unity Catalog API error: "@,
        ErrorKind::Network => "Network error: "@,
        ErrorKind::Unauthorized => "Authentication failed: "@,
        ErrorKind::TableNotFound => "Table not found: "@,
        ErrorKind::DeltaTable => "Delta table error: "@,
        ErrorKind::DataFusion => "DataFusion error: "@,
        ErrorKind::Config => "Configuration error: "@,
        ErrorKind::SchemaGeneration => "Schema generation error: "@,
        ErrorKind::Argument => "Argument error: "@,
        ErrorKind::Engine => "Query execution error: "@,
        ErrorKind::Encoding => "Encoding error: "@,
        ErrorKind::Io => "IO error: "@,
        ErrorKind::Serialization => "Serialization error: "@,
    }
}

impl NouninatorError {
    /// The kind of this error.
    pub fn kind(&self) -> (k: ErrorKind)
        ensures
            k == self@.kind,
    {
        match self {
            NouninatorError::UnityApi(_) => ErrorKind::UnityApi,
            NouninatorError::Network(_) => ErrorKind::Network,
            NouninatorError::Unauthorized(_) => ErrorKind::Unauthorized,
            NouninatorError::TableNotFound(_) => ErrorKind::TableNotFound,
            NouninatorError::DeltaTable(_) => ErrorKind::DeltaTable,
            NouninatorError::DataFusion(_) => ErrorKind::DataFusion,
            NouninatorError::Config(_) => ErrorKind::Config,
            NouninatorError::SchemaGeneration(_) => ErrorKind::SchemaGeneration,
            NouninatorError::Argument(_) => ErrorKind::Argument,
            NouninatorError::Engine(_) => ErrorKind::Engine,
            NouninatorError::Encoding(_) => ErrorKind::Encoding,
            NouninatorError::Io(_) => ErrorKind::Io,
            NouninatorError::Serialization(_) => ErrorKind::Serialization,
        }
    }

    /// The message of this error, without the words that name its kind.
    pub fn message(&self) -> (m: &str)
        ensures
            m@ == self@.message,
    {
        match self {
            NouninatorError::UnityApi(m) => m.as_str(),
            NouninatorError::Network(m) => m.as_str(),
            NouninatorError::Unauthorized(m) => m.as_str(),
            NouninatorError::TableNotFound(m) => m.as_str(),
            NouninatorError::DeltaTable(m) => m.as_str(),
            NouninatorError::DataFusion(m) => m.as_str(),
            NouninatorError::Config(m) => m.as_str(),
            NouninatorError::SchemaGeneration(m) => m.as_str(),
            NouninatorError::Argument(m) => m.as_str(),
            NouninatorError::Engine(m) => m.as_str(),
            NouninatorError::Encoding(m) => m.as_str(),
            NouninatorError::Io(m) => m.as_str(),
            NouninatorError::Serialization(m) => m.as_str(),
        }
    }

    /// The full text of this error: the words for its kind, then its message.
    pub fn to_string(&self) -> (s: String)
        ensures
            s@ == kind_prefix(self@.kind) + self@.message,
    {
        let prefix: &str = match self {
            NouninatorError::UnityApi(_) => "Unity Catalog API error: ",
            NouninatorError::Network(_) => "Network error: ",
            NouninatorError::Unauthorized(_) => "Authentication failed: ",
            NouninatorError::TableNotFound(_) => "Table not found: ",
            NouninatorError::DeltaTable(_) => "Delta table error: ",
            NouninatorError::DataFusion(_) => "DataFusion error: ",
            NouninatorError::Config(_) => "Configuration error: ",
            NouninatorError::SchemaGeneration(_) => "Schema generation error: ",
            NouninatorError::Argument(_) => "Argument error: ",
            NouninatorError::Engine(_) => "Query execution error: ",
            NouninatorError::Encoding(_) => "Encoding error: ",
            NouninatorError::Io(_) => "IO error: ",
            NouninatorError::Serialization(_) => "Serialization error: ",
        };
        crate::text::concat2(prefix, self.message())
    }
}

} // verus!
