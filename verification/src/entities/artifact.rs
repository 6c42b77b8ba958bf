//! Artifacts: objects of power, their properties, makers and owners.

use vstd::prelude::*;
use crate::ids::{MythId, seq_has_id, remove_id};
use crate::metadata::{Metadata, Source};
use crate::names::CultureId;

verus! {

/// Type of mythological artifact.
#[derive(Debug, Clone, PartialEq)]
pub enum ArtifactType {
    Weapon,
    Armor,
    Jewelry,
    Vessel,
    Tool,
    Instrument,
    Clothing,
    Book,
    Symbol,
    Unknown,
    Other(String),
}

/// A mythological artifact or object of power.
#[derive(Debug, Clone)]
pub struct Artifact {
    /// Unique identifier.
    pub id: MythId,
    /// Primary name.
    pub name: String,
    /// Description of the artifact.
    pub description: String,
    /// Cultural origin.
    pub culture: CultureId,
    /// Type of artifact.
    pub artifact_type: ArtifactType,
    /// Powers or properties.
    pub powers: Vec<String>,
    /// Creator of the artifact, if known.
    pub creator: Option<String>,
    /// Current or last known owner, if known.
    pub owner: Option<String>,
    /// Identifiers of relationships this artifact takes part in.
    pub relationships: Vec<MythId>,
    /// Provenance and bookkeeping.
    pub metadata: Metadata,
}

impl Artifact {
    /// A new artifact with a fresh identifier, fresh metadata and default
    /// attributes.
    pub fn new(name: &str, description: &str, culture: &str) -> (r: Artifact)
        ensures
            r.name@ == name@,
            r.description@ == description@,
            r.culture@ == culture@,
            r.artifact_type == ArtifactType::Unknown,
            r.powers@ == Seq::<String>::empty(),
            r.creator is None,
            r.owner is None,
            r.relationships@ == Seq::<MythId>::empty(),
            r.metadata.sources@ == Seq::<Source>::empty(),
            r.metadata.attributes@ == Seq::<(String, String)>::empty(),
    {
        Artifact {
            id: MythId::new(),
            name: name.to_owned(),
            description: description.to_owned(),
            culture: CultureId::new(culture),
            artifact_type: ArtifactType::Unknown,
            powers: Vec::new(),
            creator: None,
            owner: None,
            relationships: Vec::new(),
            metadata: Metadata::new(),
        }
    }

    /// Append a power.
    pub fn add_power(&mut self, power: &str)
        ensures
            (*final(self) == (Artifact { powers: final(self).powers, ..(*old(self)) })),
            final(self).powers@.len() == old(self).powers@.len() + 1,
            final(self).powers@.subrange(0, old(self).powers@.len() as int) == old(self).powers@,
            final(self).powers@.last()@ == power@,
    {
        self.powers.push(power.to_owned());
        proof {
            assert(final(self).powers@.subrange(0, old(self).powers@.len() as int) =~= old(
                self,
            ).powers@);
        }
    }

    /// Set the artifact type.
    pub fn set_artifact_type(&mut self, artifact_type: ArtifactType)
        ensures
            (*final(self) == (Artifact { artifact_type, ..(*old(self)) })),
    {
        self.artifact_type = artifact_type;
    }

    /// Set the creator.
    pub fn set_creator(&mut self, creator: &str)
        ensures
            (*final(self) == (Artifact { creator: final(self).creator, ..(*old(self)) })),
            final(self).creator matches Some(c) && c@ == creator@,
    {
        self.creator = Some(creator.to_owned());
    }

    /// Set the owner.
    pub fn set_owner(&mut self, owner: &str)
        ensures
            (*final(self) == (Artifact { owner: final(self).owner, ..(*old(self)) })),
            final(self).owner matches Some(o) && o@ == owner@,
    {
        self.owner = Some(owner.to_owned());
    }

    /// Record that this artifact takes part in a relationship.
    pub fn add_relationship(&mut self, relationship_id: MythId)
        ensures
            (*final(self) == (Artifact {
                relationships: final(self).relationships,
                ..(*old(self))
            })),
            final(self).relationships@ == old(self).relationships@.push(relationship_id),
    {
        self.relationships.push(relationship_id);
    }

    /// Forget a relationship; true when it was recorded.
    pub fn remove_relationship(&mut self, relationship_id: &MythId) -> (r: bool)
        ensures
            (*final(self) == (Artifact {
                relationships: final(self).relationships,
                ..(*old(self))
            })),
            final(self).relationships@ == old(self).relationships@.filter(
                |x: MythId| x != *relationship_id,
            ),
            r == seq_has_id(old(self).relationships@, *relationship_id),
    {
        remove_id(&mut self.relationships, relationship_id)
    }

    /// The cultural origin.
    pub fn culture(&self) -> (r: &CultureId)
        ensures
            *r == self.culture,
    {
        &self.culture
    }

    /// The artifact type.
    pub fn artifact_type(&self) -> (r: &ArtifactType)
        ensures
            *r == self.artifact_type,
    {
        &self.artifact_type
    }

    /// The powers.
    pub fn powers(&self) -> (r: &Vec<String>)
        ensures
            r@ == self.powers@,
    {
        &self.powers
    }

    /// The creator, if known.
    pub fn creator(&self) -> (r: Option<&String>)
        ensures
            match r {
                Some(c) => self.creator matches Some(d) && d == *c,
                None => self.creator is None,
            },
    {
        self.creator.as_ref()
    }

    /// The owner, if known.
    pub fn owner(&self) -> (r: Option<&String>)
        ensures
            match r {
                Some(o) => self.owner matches Some(p) && p == *o,
                None => self.owner is None,
            },
    {
        self.owner.as_ref()
    }
}

} // verus!
