//! The schema compiler and the resolver engine: column types, API types,
//! API values, row conversion, query planning and schema compilation.

pub mod batch;
pub mod builder;
pub mod calendar;
pub mod column;
pub mod marshal;
pub mod query;
pub mod resolver;
pub mod scalars;
pub mod type_mapping;
pub mod value;

pub use column::{DataType, FieldDescriptor, TimeUnit};
pub use type_mapping::{arrow_to_graphql_type, to_snake_case, TypeNode, TypeRef};
pub use value::{RowObject, Value, ValueView};
pub use batch::{Cell, RecordBatch};
pub use marshal::record_batch_to_graphql_value;
pub use query::Query;
pub use resolver::{
    create_get_resolver, create_list_resolver, Argument, Field, Input, InputValue, Resolver,
};
pub use scalars::{register_custom_scalars, Date, DateTime, Scalar, ScalarKind};
pub use builder::{Object, Schema, SchemaBuilder, TableFormat};
