//! The configuration types and their validation.

use vstd::prelude::*;
use crate::error::{ErrorKind, NouninatorError};
use crate::text::{
    char_is_alphanumeric, char_is_uppercase, chars_of, concat3, has_prefix, matches_at,
};

verus! {

/// Top-level configuration.
#[derive(Debug)]
pub struct Config {
    /// The catalog workspace, where one is used.
    pub databricks: Option<DatabricksConfig>,
    pub server: ServerConfig,
    pub entity: Vec<EntityConfig>,
}

/// Connection to the catalog workspace.
#[derive(Debug)]
pub struct DatabricksConfig {
    /// Workspace URL.
    pub host: String,
}

/// Server configuration.
#[derive(Debug)]
pub struct ServerConfig {
    /// Port to bind the server to.
    pub port: u16,
    /// Interface to bind the server to.
    pub bind: String,
}

/// The port of a server whose configuration names none.
pub fn default_port() -> (port: u16)
    ensures
        port == 4000,
{
    4000
}

/// The interface of a server whose configuration names none.
pub fn default_bind() -> (bind: String)
    ensures
        bind@ == "0.0.0.0"@,
{
    "0.0.0.0".to_owned()
}

/// An entity descriptor: one table exposed under one type name.
#[derive(Debug)]
pub struct EntityConfig {
    /// Table identifier: a single segment or `catalog.schema.table`.
    pub table: String,
    /// Name of the exposed type.
    pub graphql_name: String,
    /// Primary key column name.
    pub primary_key: String,
    /// Optional description for the schema.
    pub description: Option<String>,
    /// Optional storage location of the table.
    pub storage_location: Option<String>,
}

/// An entity descriptor in contracts.
pub struct EntityView {
    pub table: Seq<char>,
    pub graphql_name: Seq<char>,
    pub primary_key: Seq<char>,
    pub description: Option<Seq<char>>,
    pub storage_location: Option<Seq<char>>,
}

/// The characters of an optional string.
pub open spec fn optional_text(s: Option<String>) -> Option<Seq<char>> {
    match s {
        Some(t) => Some(t@),
        None => None,
    }
}

impl View for EntityConfig {
    type V = EntityView;

    open spec fn view(&self) -> EntityView {
        EntityView {
            table: self.table@,
            graphql_name: self.graphql_name@,
            primary_key: self.primary_key@,
            description: optional_text(self.description),
            storage_location: optional_text(self.storage_location),
        }
    }
}

/// The views of a list of entity descriptors.
pub open spec fn entity_views(entities: Seq<EntityConfig>) -> Seq<EntityView> {
    Seq::new(entities.len(), |i: int| entities[i]@)
}

/// How often `c` occurs in `s`.
pub open spec fn count_char(s: Seq<char>, c: char) -> nat
    decreases s.len(),
{
    if s.len() == 0 {
        0
    } else {
        count_char(s.drop_last(), c) + if s.last() == c {
            1nat
        } else {
            0nat
        }
    }
}

/// A table identifier is a single segment or three segments separated by
/// dots: it holds no dot or two.
pub open spec fn table_shape_ok(table: Seq<char>) -> bool {
    count_char(table, '.') == 0 || count_char(table, '.') == 2
}

/// Every character is alphabetic or numeric.
pub open spec fn all_alphanumeric(s: Seq<char>) -> bool {
    forall|i: int| 0 <= i < s.len() ==> char_is_alphanumeric(#[trigger] s[i])
}

/// The text is not empty and begins with an uppercase character.
pub open spec fn starts_uppercase(s: Seq<char>) -> bool {
    s.len() > 0 && char_is_uppercase(s[0])
}

/// The complaint about an entity descriptor, if there is one: about the
/// shape of the table identifier first, then about a type name that is not
/// alphanumeric, then about one that does not begin in uppercase.
pub open spec fn entity_complaint(entity: EntityView) -> Option<Seq<char>> {
    if !table_shape_ok(entity.table) {
        Some(
            "Table '"@ + entity.table
                + "' must be either a simple name or in format 'catalog.schema.table'"@,
        )
    } else if !all_alphanumeric(entity.graphql_name) {
        Some("GraphQL name '"@ + entity.graphql_name + "' must be alphanumeric"@)
    } else if !starts_uppercase(entity.graphql_name) {
        Some(
            "GraphQL name '"@ + entity.graphql_name
                + "' must start with uppercase letter (PascalCase)"@,
        )
    } else {
        None
    }
}

/// The first complaint about the first `n` entities, if there is one.
pub open spec fn first_complaint(entities: Seq<EntityView>, n: nat) -> Option<Seq<char>>
    decreases n,
{
    if n == 0 {
        None
    } else {
        match first_complaint(entities, (n - 1) as nat) {
            Some(m) => Some(m),
            None => entity_complaint(entities[n - 1]),
        }
    }
}

/// A workspace URL begins with `http://` or `https://`.
pub open spec fn host_ok(host: Seq<char>) -> bool {
    has_prefix(host, "http://"@) || has_prefix(host, "https://"@)
}

/// The complaint about a configuration, if there is one: the first complaint
/// about its entities, else the one about the workspace URL.
pub open spec fn config_complaint(
    databricks_host: Option<Seq<char>>,
    entities: Seq<EntityView>,
) -> Option<Seq<char>> {
    match first_complaint(entities, entities.len()) {
        Some(m) => Some(m),
        None => match databricks_host {
            Some(host) => if host_ok(host) {
                None
            } else {
                Some(
                    "Databricks host '"@ + host + "' must be a valid URL (http:// or https://)"@,
                )
            },
            None => None,
        },
    }
}

fn count_dots(v: &Vec<char>) -> (n: usize)
    ensures
        n == count_char(v@, '.'),
{
    let mut n: usize = 0;
    let mut i: usize = 0;
    while i < v.len()
        invariant
            i <= v.len(),
            n <= i,
            n == count_char(v@.take(i as int), '.'),
        decreases v.len() - i,
    {
        proof {
            assert(v@.take(i + 1).drop_last() == v@.take(i as int));
        }
        if v[i] == '.' {
            n = n + 1;
        }
        i = i + 1;
    }
    proof {
        assert(v@.take(v.len() as int) == v@);
    }
    n
}

fn is_all_alphanumeric(v: &Vec<char>) -> (b: bool)
    ensures
        b == all_alphanumeric(v@),
{
    let mut i: usize = 0;
    while i < v.len()
        invariant
            i <= v.len(),
            forall|k: int| 0 <= k < i ==> char_is_alphanumeric(#[trigger] v@[k]),
        decreases v.len() - i,
    {
        if !v[i].is_alphanumeric() {
            return false;
        }
        i = i + 1;
    }
    true
}

/// A copy of an optional string.
pub fn clone_optional(s: &Option<String>) -> (r: Option<String>)
    ensures
        optional_text(r) == optional_text(*s),
{
    match s {
        Some(t) => Some(t.clone()),
        None => None,
    }
}

impl Clone for EntityConfig {
    /// A copy of this descriptor.
    fn clone(&self) -> (e: EntityConfig)
        ensures
            e@ == self@,
    {
        EntityConfig {
            table: self.table.clone(),
            graphql_name: self.graphql_name.clone(),
            primary_key: self.primary_key.clone(),
            description: clone_optional(&self.description),
            storage_location: clone_optional(&self.storage_location),
        }
    }
}

/// A copy of a list of entity descriptors.
pub fn clone_entities(entities: &Vec<EntityConfig>) -> (r: Vec<EntityConfig>)
    ensures
        entity_views(r@) == entity_views(entities@),
{
    let mut r: Vec<EntityConfig> = Vec::new();
    let mut i: usize = 0;
    while i < entities.len()
        invariant
            i <= entities.len(),
            entity_views(r@) == entity_views(entities@).take(i as int),
        decreases entities.len() - i,
    {
        let ghost before = r@;
        r.push(entities[i].clone());
        proof {
            assert(entity_views(r@) =~= entity_views(before).push(entities@[i as int]@));
            assert(entity_views(entities@).take(i + 1) =~= entity_views(entities@).take(
                i as int,
            ).push(entities@[i as int]@));
        }
        i = i + 1;
    }
    proof {
        assert(entity_views(entities@).take(entities.len() as int) == entity_views(entities@));
    }
    r
}

impl Clone for DatabricksConfig {
    /// A copy of this configuration.
    fn clone(&self) -> (c: DatabricksConfig)
        ensures
            c.host@ == self.host@,
    {
        DatabricksConfig { host: self.host.clone() }
    }
}

impl Clone for ServerConfig {
    /// A copy of this configuration.
    fn clone(&self) -> (c: ServerConfig)
        ensures
            c.port == self.port,
            c.bind@ == self.bind@,
    {
        ServerConfig { port: self.port, bind: self.bind.clone() }
    }
}

impl Clone for Config {
    /// A copy of this configuration.
    fn clone(&self) -> (c: Config)
        ensures
            entity_views(c.entity@) == entity_views(self.entity@),
            c.server.port == self.server.port,
            c.server.bind@ == self.server.bind@,
            c.databricks is Some <==> self.databricks is Some,
            c.databricks matches Some(d) ==> d.host@ == self.databricks->Some_0.host@,
    {
        Config {
            databricks: match &self.databricks {
                Some(d) => Some(d.clone()),
                None => None,
            },
            server: self.server.clone(),
            entity: clone_entities(&self.entity),
        }
    }
}

impl EntityConfig {

    /// Checks the descriptor: the table identifier is a single segment or
    /// three segments separated by dots, the type name is alphanumeric, not
    /// empty, and begins with an uppercase character. Returns the complaint
    /// otherwise.
    pub fn validate(&self) -> (r: Result<(), String>)
        ensures
            match r {
                Ok(_) => entity_complaint(self@) is None,
                Err(m) => entity_complaint(self@) == Some(m@),
            },
    {
        let table = chars_of(self.table.as_str());
        let dots = count_dots(&table);
        if dots != 0 && dots != 2 {
            return Err(
                concat3(
                    "Table '",
                    self.table.as_str(),
                    "' must be either a simple name or in format 'catalog.schema.table'",
                ),
            );
        }
        let name = chars_of(self.graphql_name.as_str());
        if !is_all_alphanumeric(&name) {
            return Err(
                concat3("GraphQL name '", self.graphql_name.as_str(), "' must be alphanumeric"),
            );
        }
        if name.len() == 0 || !name[0].is_uppercase() {
            return Err(
                concat3(
                    "GraphQL name '",
                    self.graphql_name.as_str(),
                    "' must start with uppercase letter (PascalCase)",
                ),
            );
        }
        Ok(())
    }
}

/// Checks every entity in order and returns the first complaint as a
/// configuration error.
pub fn validate_entities(entities: &Vec<EntityConfig>) -> (r: Result<(), NouninatorError>)
    ensures
        match r {
            Ok(_) => first_complaint(entity_views(entities@), entities@.len()) is None,
            Err(e) => first_complaint(entity_views(entities@), entities@.len()) == Some(
                e@.message,
            ) && e@.kind == ErrorKind::Config,
        },
{
    let mut i: usize = 0;
    while i < entities.len()
        invariant
            i <= entities.len(),
            first_complaint(entity_views(entities@), i as nat) is None,
        decreases entities.len() - i,
    {
        match entities[i].validate() {
            Ok(_) => {},
            Err(m) => {
                proof {
                    lemma_complaint_stays(
                        entity_views(entities@),
                        (i + 1) as nat,
                        entities@.len(),
                    );
                }
                return Err(NouninatorError::Config(m));
            },
        }
        i = i + 1;
    }
    Ok(())
}

/// Once the first `k` entities have a complaint, the first `n` have the same.
pub proof fn lemma_complaint_stays(entities: Seq<EntityView>, k: nat, n: nat)
    requires
        k <= n,
        first_complaint(entities, k) is Some,
    ensures
        first_complaint(entities, n) == first_complaint(entities, k),
    decreases n - k,
{
    if k < n {
        lemma_complaint_stays(entities, k, (n - 1) as nat);
    }
}

/// Where the first `n` entities have no complaint, none of them has one.
pub proof fn lemma_no_complaint(entities: Seq<EntityView>, n: nat)
    requires
        first_complaint(entities, n) is None,
    ensures
        forall|i: int| 0 <= i < n ==> entity_complaint(#[trigger] entities[i]) is None,
    decreases n,
{
    if n > 0 {
        lemma_no_complaint(entities, (n - 1) as nat);
    }
}

/// Whether a workspace URL begins with `http://` or `https://`.
pub fn is_host_ok(host: &str) -> (b: bool)
    ensures
        b == host_ok(host@),
{
    let v = chars_of(host);
    let plain = chars_of("http://");
    let secure = chars_of("https://");
    proof {
        assert(v@.skip(0) == v@);
    }
    matches_at(&v, 0, &plain) || matches_at(&v, 0, &secure)
}

/// Checks a configuration: every entity, then the workspace URL where one is
/// given. Returns the first complaint as a configuration error.
pub fn validate_config(config: &Config) -> (r: Result<(), NouninatorError>)
    ensures
        match r {
            Ok(_) => config_complaint(
                match config.databricks {
                    Some(d) => Some(d.host@),
                    None => None,
                },
                entity_views(config.entity@),
            ) is None,
            Err(e) => e@.kind == ErrorKind::Config && config_complaint(
                match config.databricks {
                    Some(d) => Some(d.host@),
                    None => None,
                },
                entity_views(config.entity@),
            ) == Some(e@.message),
        },
{
    match validate_entities(&config.entity) {
        Ok(_) => {},
        Err(e) => {
            return Err(e);
        },
    }
    match &config.databricks {
        Some(databricks) => {
            if !is_host_ok(databricks.host.as_str()) {
                return Err(
                    NouninatorError::Config(
                        concat3(
                            "Databricks host '",
                            databricks.host.as_str(),
                            "' must be a valid URL (http:// or https://)",
                        ),
                    ),
                );
            }
        },
        None => {},
    }
    Ok(())
}

} // verus!
