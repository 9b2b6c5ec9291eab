//! Configuration: the server settings and the entity descriptors, with the
//! rules that a configuration has to meet.

pub mod registry;
pub mod types;

pub use registry::EntityRegistry;
pub use types::{
    default_bind, default_port, validate_config, validate_entities, Config, DatabricksConfig,
    EntityConfig, ServerConfig,
};
