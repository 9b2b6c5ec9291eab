//! The catalog service: its records, the requests that read them and the
//! discovery of entities from them.

pub mod client;
pub mod discovery;
pub mod types;

pub use client::UnityClient;
pub use discovery::{discover_entities, to_pascal_case};
pub use types::{ColumnInfo, ListTablesResponse, Properties, TableInfo, TableMetadata};
