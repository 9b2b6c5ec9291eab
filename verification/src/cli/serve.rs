//! The settings of the server command.

use vstd::prelude::*;
use crate::config::types::{default_port, EntityConfig, EntityView};

verus! {

/// Where the table of an entity is stored: its storage location, or its
/// table identifier where it names none.
pub open spec fn table_path(entity: EntityView) -> Seq<char> {
    match entity.storage_location {
        Some(location) => location,
        None => entity.table,
    }
}

/// The path from which the table of `entity` is registered.
pub fn determine_table_path(entity: &EntityConfig) -> (path: String)
    ensures
        path@ == table_path(entity@),
{
    match &entity.storage_location {
        Some(location) => location.clone(),
        None => entity.table.clone(),
    }
}

/// The port on which the server listens: the one given on the command line,
/// unless that is the default, in which case the configured one.
pub open spec fn chosen_port(requested: u16, configured: u16) -> u16 {
    if requested != 4000 {
        requested
    } else {
        configured
    }
}

/// The port on which the server listens.
pub fn server_port(requested: u16, configured: u16) -> (port: u16)
    ensures
        port == chosen_port(requested, configured),
{
    if requested != default_port() {
        requested
    } else {
        configured
    }
}

} // verus!
