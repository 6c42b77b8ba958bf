//! Concepts: abstract ideas and principles and their manifestations.

use vstd::prelude::*;
use crate::ids::{MythId, seq_has_id, remove_id};
use crate::metadata::{Metadata, Source};
use crate::names::CultureId;

verus! {

/// Type of mythological concept.
#[derive(Debug, Clone, PartialEq)]
pub enum ConceptType {
    Cosmology,
    Creation,
    Afterlife,
    Virtue,
    Vice,
    Fate,
    Time,
    Justice,
    Love,
    War,
    Unknown,
    Other(String),
}

/// An abstract mythological concept.
#[derive(Debug, Clone)]
pub struct Concept {
    /// Unique identifier.
    pub id: MythId,
    /// Primary name.
    pub name: String,
    /// Description of the concept.
    pub description: String,
    /// Cultural origin.
    pub culture: CultureId,
    /// Type of concept.
    pub concept_type: ConceptType,
    /// Manifestations or representations.
    pub manifestations: Vec<String>,
    /// Identifiers of relationships this concept takes part in.
    pub relationships: Vec<MythId>,
    /// Provenance and bookkeeping.
    pub metadata: Metadata,
}

impl Concept {
    /// A new concept with a fresh identifier, fresh metadata and default
    /// attributes.
    pub fn new(name: &str, description: &str, culture: &str) -> (r: Concept)
        ensures
            r.name@ == name@,
            r.description@ == description@,
            r.culture@ == culture@,
            r.concept_type == ConceptType::Unknown,
            r.manifestations@ == Seq::<String>::empty(),
            r.relationships@ == Seq::<MythId>::empty(),
            r.metadata.sources@ == Seq::<Source>::empty(),
            r.metadata.attributes@ == Seq::<(String, String)>::empty(),
    {
        Concept {
            id: MythId::new(),
            name: name.to_owned(),
            description: description.to_owned(),
            culture: CultureId::new(culture),
            concept_type: ConceptType::Unknown,
            manifestations: Vec::new(),
            relationships: Vec::new(),
            metadata: Metadata::new(),
        }
    }

    /// Append a manifestation.
    pub fn add_manifestation(&mut self, manifestation: &str)
        ensures
            (*final(self) == (Concept {
                manifestations: final(self).manifestations,
                ..(*old(self))
            })),
            final(self).manifestations@.len() == old(self).manifestations@.len() + 1,
            final(self).manifestations@.subrange(0, old(self).manifestations@.len() as int) == old(
                self,
            ).manifestations@,
            final(self).manifestations@.last()@ == manifestation@,
    {
        self.manifestations.push(manifestation.to_owned());
        proof {
            assert(final(self).manifestations@.subrange(0, old(self).manifestations@.len() as int)
                =~= old(self).manifestations@);
        }
    }

    /// Set the concept type.
    pub fn set_concept_type(&mut self, concept_type: ConceptType)
        ensures
            (*final(self) == (Concept { concept_type, ..(*old(self)) })),
    {
        self.concept_type = concept_type;
    }

    /// Record that this concept takes part in a relationship.
    pub fn add_relationship(&mut self, relationship_id: MythId)
        ensures
            (*final(self) == (Concept {
                relationships: final(self).relationships,
                ..(*old(self))
            })),
            final(self).relationships@ == old(self).relationships@.push(relationship_id),
    {
        self.relationships.push(relationship_id);
    }

    /// Forget a relationship; true when it was recorded.
    pub fn remove_relationship(&mut self, relationship_id: &MythId) -> (r: bool)
        ensures
            (*final(self) == (Concept {
                relationships: final(self).relationships,
                ..(*old(self))
            })),
            final(self).relationships@ == old(self).relationships@.filter(
                |x: MythId| x != *relationship_id,
            ),
            r == seq_has_id(old(self).relationships@, *relationship_id),
    {
        remove_id(&mut self.relationships, relationship_id)
    }

    /// The cultural origin.
    pub fn culture(&self) -> (r: &CultureId)
        ensures
            *r == self.culture,
    {
        &self.culture
    }

    /// The concept type.
    pub fn concept_type(&self) -> (r: &ConceptType)
        ensures
            *r == self.concept_type,
    {
        &self.concept_type
    }

    /// The manifestations.
    pub fn manifestations(&self) -> (r: &Vec<String>)
        ensures
            r@ == self.manifestations@,
    {
        &self.manifestations
    }
}

} // verus!
