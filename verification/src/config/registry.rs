//! The entity registry: the validated list of entity descriptors that the
//! schema compiler works on.

use vstd::prelude::*;
use crate::config::types::{
    clone_entities, entity_views, first_complaint, validate_entities, EntityConfig, EntityView,
};
use crate::error::{ErrorKind, ErrorView, NouninatorError};
use crate::text::{concat3, find_repeat, first_repeat, lemma_no_repeat, texts};

verus! {

/// The type names of a list of entities.
pub open spec fn display_names(entities: Seq<EntityView>) -> Seq<Seq<char>> {
    Seq::new(entities.len(), |i: int| entities[i].graphql_name)
}

/// The complaint about a list of entities, if there is one: the first
/// complaint about one of them, else the first type name that two of them
/// share.
pub open spec fn registry_complaint(entities: Seq<EntityView>) -> Option<Seq<char>> {
    match first_complaint(entities, entities.len()) {
        Some(complaint) => Some(complaint),
        None => match first_repeat(display_names(entities), entities.len()) {
            Some(j) => Some(
                "GraphQL name '"@ + entities[j].graphql_name
                    + "' is used by more than one entity"@,
            ),
            None => None,
        },
    }
}

/// A list of entity descriptors, each of them valid, no two of them with the
/// same type name. It is made once and never changed.
#[derive(Debug)]
pub struct EntityRegistry {
    entities: Vec<EntityConfig>,
}

impl View for EntityRegistry {
    type V = Seq<EntityView>;

    closed spec fn view(&self) -> Seq<EntityView> {
        entity_views(self.entities@)
    }
}

fn names_of(entities: &Vec<EntityConfig>) -> (names: Vec<String>)
    ensures
        texts(names@) == display_names(entity_views(entities@)),
{
    let mut names: Vec<String> = Vec::new();
    let mut i: usize = 0;
    while i < entities.len()
        invariant
            i <= entities.len(),
            texts(names@) == display_names(entity_views(entities@)).take(i as int),
        decreases entities.len() - i,
    {
        let ghost before = names@;
        names.push(entities[i].graphql_name.clone());
        proof {
            assert(texts(names@) =~= texts(before).push(entities@[i as int].graphql_name@));
            assert(display_names(entity_views(entities@)).take(i + 1) =~= display_names(
                entity_views(entities@),
            ).take(i as int).push(entities@[i as int].graphql_name@));
        }
        i = i + 1;
    }
    proof {
        assert(display_names(entity_views(entities@)).take(entities.len() as int)
            == display_names(entity_views(entities@)));
    }
    names
}

impl EntityRegistry {
    #[verifier::type_invariant]
    spec fn holds_valid_entities(self) -> bool {
        registry_complaint(entity_views(self.entities@)) is None
    }

    /// Makes a registry of the given entities, or returns the complaint
    /// about them as a configuration error.
    pub fn new(entities: Vec<EntityConfig>) -> (r: Result<EntityRegistry, NouninatorError>)
        ensures
            match r {
                Ok(registry) => registry_complaint(entity_views(entities@)) is None && registry@
                    == entity_views(entities@),
                Err(e) => e@.kind == ErrorKind::Config && registry_complaint(
                    entity_views(entities@),
                ) == Some(e@.message),
            },
    {
        match validate_entities(&entities) {
            Ok(_) => {},
            Err(e) => {
                return Err(e);
            },
        }
        let names = names_of(&entities);
        proof {
            assert(texts(names@).len() == names@.len());
            assert(display_names(entity_views(entities@)).len() == entities@.len());
            assert(entity_views(entities@).len() == entities@.len());
        }
        match find_repeat(&names) {
            Some(j) => {
                proof {
                    assert(texts(names@)[j as int] == names@[j as int]@);
                    assert(display_names(entity_views(entities@))[j as int] == entity_views(
                        entities@,
                    )[j as int].graphql_name);
                }
                Err(
                    NouninatorError::Config(
                        concat3(
                            "GraphQL name '",
                            names[j].as_str(),
                            "' is used by more than one entity",
                        ),
                    ),
                )
            },
            None => Ok(EntityRegistry { entities }),
        }
    }

    /// The entities, in their order. Each of them is valid and no two of
    /// them share a type name.
    pub fn entities(&self) -> (entities: &Vec<EntityConfig>)
        ensures
            entity_views(entities@) == self@,
            registry_complaint(self@) is None,
    {
        proof {
            use_type_invariant(self);
        }
        &self.entities
    }

    /// The number of entities.
    pub fn len(&self) -> (n: usize)
        ensures
            n == self@.len(),
    {
        self.entities.len()
    }

    /// A copy of the entities, as the schema compiler takes them.
    pub fn to_vec(&self) -> (entities: Vec<EntityConfig>)
        ensures
            entity_views(entities@) == self@,
            registry_complaint(self@) is None,
    {
        proof {
            use_type_invariant(self);
        }
        clone_entities(&self.entities)
    }
}

/// In a list of entities without complaint no two entities have the same
/// type name.
pub proof fn lemma_registry_names_are_distinct(entities: Seq<EntityView>)
    requires
        registry_complaint(entities) is None,
    ensures
        forall|i: int, j: int|
            0 <= i < j < entities.len() ==> (#[trigger] entities[i]).graphql_name != (
            #[trigger] entities[j]).graphql_name,
{
    lemma_no_repeat(display_names(entities), entities.len());
    assert forall|i: int, j: int| 0 <= i < j < entities.len() implies (
    #[trigger] entities[i]).graphql_name != (#[trigger] entities[j]).graphql_name by {
        assert(display_names(entities)[i] == entities[i].graphql_name);
        assert(display_names(entities)[j] == entities[j].graphql_name);
    }
}

} // verus!
