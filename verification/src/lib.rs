//! Runtime compilation of tabular datasets into a typed, introspectable query
//! surface: type inference from column metadata, query planning for point
//! lookups and paginated listings, and conversion of result rows into API
//! values.

pub mod cli;
pub mod config;
pub mod error;
pub mod schema;
pub mod text;
pub mod unity;

pub use config::{Config, DatabricksConfig, EntityConfig, ServerConfig};
pub use error::{ErrorKind, NouninatorError};
pub use schema::SchemaBuilder;
pub use unity::UnityClient;
