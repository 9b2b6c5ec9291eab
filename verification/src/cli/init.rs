//! The configurations that the init command writes.

use vstd::prelude::*;
use crate::config::types::{
    default_bind, default_port, Config, DatabricksConfig, EntityConfig, ServerConfig,
};

verus! {

/// The configuration of the example: no workspace, the default server
/// settings and the given entities.
pub fn example_config(entities: Vec<EntityConfig>) -> (config: Config)
    ensures
        config.databricks is None,
        config.server.port == 4000,
        config.server.bind@ == "0.0.0.0"@,
        config.entity == entities,
{
    Config {
        databricks: None,
        server: ServerConfig { port: default_port(), bind: default_bind() },
        entity: entities,
    }
}

/// The configuration of a discovery: the workspace at `host`, the default
/// server settings and the discovered entities.
pub fn catalog_config(host: String, entities: Vec<EntityConfig>) -> (config: Config)
    ensures
        config.databricks matches Some(d) && d.host == host,
        config.server.port == 4000,
        config.server.bind@ == "0.0.0.0"@,
        config.entity == entities,
{
    Config {
        databricks: Some(DatabricksConfig { host }),
        server: ServerConfig { port: default_port(), bind: default_bind() },
        entity: entities,
    }
}

} // verus!
