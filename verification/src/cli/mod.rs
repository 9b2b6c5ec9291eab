//! What the command line decides: the example tables and their entities,
//! the settings of the server, and the plans of the example conversion.

pub mod convert;
pub mod example;
pub mod init;
pub mod serve;

pub use example::create_example_entities;
