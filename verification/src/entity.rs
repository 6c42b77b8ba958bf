//! The closed entity model: one sum type over every storable thing — six
//! node kinds, five relationship kinds and four cultural-context kinds —
//! exposing a uniform capability surface (identifier, name, metadata, stable
//! type tag, outgoing relationship identifiers, cultural axis).

use vstd::prelude::*;
use crate::ids::{MythId, copy_ids};
use crate::metadata::Metadata;
use crate::names::CultureId;
use crate::entities::artifact::Artifact;
use crate::entities::concept::Concept;
use crate::entities::creature::Creature;
use crate::entities::deity::Deity;
use crate::entities::hero::Hero;
use crate::entities::location::Location;
use crate::relationships::relationship::Relationship;
use crate::relationships::family::FamilyRelationship;
use crate::relationships::alliance::AllianceRelationship;
use crate::relationships::conflict::ConflictRelationship;
use crate::relationships::transformation::TransformationRelationship;
use crate::cultural::culture::Culture;
use crate::cultural::pantheon::Pantheon;
use crate::cultural::era::MythologicalEra;
use crate::cultural::region::MythologicalRegion;

verus! {

/// Any entity in the mythological ontology.
#[derive(Debug, Clone)]
pub enum MythEntity {
    Deity(Deity),
    Hero(Hero),
    Creature(Creature),
    Artifact(Artifact),
    Location(Location),
    Concept(Concept),
    Relationship(Relationship),
    FamilyRelationship(FamilyRelationship),
    AllianceRelationship(AllianceRelationship),
    ConflictRelationship(ConflictRelationship),
    TransformationRelationship(TransformationRelationship),
    Culture(Culture),
    Pantheon(Pantheon),
    MythologicalEra(MythologicalEra),
    MythologicalRegion(MythologicalRegion),
}

impl MythEntity {
    /// The unique identifier of this entity.
    pub open spec fn spec_id(&self) -> MythId {
        match self {
            MythEntity::Deity(e) => e.id,
            MythEntity::Hero(e) => e.id,
            MythEntity::Creature(e) => e.id,
            MythEntity::Artifact(e) => e.id,
            MythEntity::Location(e) => e.id,
            MythEntity::Concept(e) => e.id,
            MythEntity::Relationship(e) => e.id,
            MythEntity::FamilyRelationship(e) => e.relationship.id,
            MythEntity::AllianceRelationship(e) => e.relationship.id,
            MythEntity::ConflictRelationship(e) => e.relationship.id,
            MythEntity::TransformationRelationship(e) => e.relationship.id,
            MythEntity::Culture(e) => e.id,
            MythEntity::Pantheon(e) => e.id,
            MythEntity::MythologicalEra(e) => e.id,
            MythEntity::MythologicalRegion(e) => e.id,
        }
    }

    /// The name of this entity.
    pub open spec fn spec_name(&self) -> Seq<char> {
        match self {
            MythEntity::Deity(e) => e.name@,
            MythEntity::Hero(e) => e.name@,
            MythEntity::Creature(e) => e.name@,
            MythEntity::Artifact(e) => e.name@,
            MythEntity::Location(e) => e.name@,
            MythEntity::Concept(e) => e.name@,
            MythEntity::Relationship(e) => e.name@,
            MythEntity::FamilyRelationship(e) => e.relationship.name@,
            MythEntity::AllianceRelationship(e) => e.relationship.name@,
            MythEntity::ConflictRelationship(e) => e.relationship.name@,
            MythEntity::TransformationRelationship(e) => e.relationship.name@,
            MythEntity::Culture(e) => e.name@,
            MythEntity::Pantheon(e) => e.name@,
            MythEntity::MythologicalEra(e) => e.name@,
            MythEntity::MythologicalRegion(e) => e.name@,
        }
    }

    /// The stable type tag of this entity.
    pub open spec fn spec_entity_type(&self) -> Seq<char> {
        match self {
            MythEntity::Deity(_) => "Deity"@,
            MythEntity::Hero(_) => "Hero"@,
            MythEntity::Creature(_) => "Creature"@,
            MythEntity::Artifact(_) => "Artifact"@,
            MythEntity::Location(_) => "Location"@,
            MythEntity::Concept(_) => "Concept"@,
            MythEntity::Relationship(_) => "Relationship"@,
            MythEntity::FamilyRelationship(_) => "FamilyRelationship"@,
            MythEntity::AllianceRelationship(_) => "AllianceRelationship"@,
            MythEntity::ConflictRelationship(_) => "ConflictRelationship"@,
            MythEntity::TransformationRelationship(_) => "TransformationRelationship"@,
            MythEntity::Culture(_) => "Culture"@,
            MythEntity::Pantheon(_) => "Pantheon"@,
            MythEntity::MythologicalEra(_) => "MythologicalEra"@,
            MythEntity::MythologicalRegion(_) => "MythologicalRegion"@,
        }
    }

    /// The metadata of this entity.
    pub open spec fn spec_metadata(&self) -> Metadata {
        match self {
            MythEntity::Deity(e) => e.metadata,
            MythEntity::Hero(e) => e.metadata,
            MythEntity::Creature(e) => e.metadata,
            MythEntity::Artifact(e) => e.metadata,
            MythEntity::Location(e) => e.metadata,
            MythEntity::Concept(e) => e.metadata,
            MythEntity::Relationship(e) => e.metadata,
            MythEntity::FamilyRelationship(e) => e.relationship.metadata,
            MythEntity::AllianceRelationship(e) => e.relationship.metadata,
            MythEntity::ConflictRelationship(e) => e.relationship.metadata,
            MythEntity::TransformationRelationship(e) => e.relationship.metadata,
            MythEntity::Culture(e) => e.metadata,
            MythEntity::Pantheon(e) => e.metadata,
            MythEntity::MythologicalEra(e) => e.metadata,
            MythEntity::MythologicalRegion(e) => e.metadata,
        }
    }

    /// This entity with its metadata replaced.
    pub open spec fn spec_with_metadata(&self, m: Metadata) -> MythEntity {
        match self {
            MythEntity::Deity(e) => MythEntity::Deity(Deity { metadata: m, ..*e }),
            MythEntity::Hero(e) => MythEntity::Hero(Hero { metadata: m, ..*e }),
            MythEntity::Creature(e) => MythEntity::Creature(Creature { metadata: m, ..*e }),
            MythEntity::Artifact(e) => MythEntity::Artifact(Artifact { metadata: m, ..*e }),
            MythEntity::Location(e) => MythEntity::Location(Location { metadata: m, ..*e }),
            MythEntity::Concept(e) => MythEntity::Concept(Concept { metadata: m, ..*e }),
            MythEntity::Relationship(e) => MythEntity::Relationship(
                Relationship { metadata: m, ..*e },
            ),
            MythEntity::FamilyRelationship(e) => MythEntity::FamilyRelationship(
                FamilyRelationship {
                    relationship: Relationship { metadata: m, ..e.relationship },
                    ..*e
                },
            ),
            MythEntity::AllianceRelationship(e) => MythEntity::AllianceRelationship(
                AllianceRelationship {
                    relationship: Relationship { metadata: m, ..e.relationship },
                    ..*e
                },
            ),
            MythEntity::ConflictRelationship(e) => MythEntity::ConflictRelationship(
                ConflictRelationship {
                    relationship: Relationship { metadata: m, ..e.relationship },
                    ..*e
                },
            ),
            MythEntity::TransformationRelationship(e) => MythEntity::TransformationRelationship(
                TransformationRelationship {
                    relationship: Relationship { metadata: m, ..e.relationship },
                    ..*e
                },
            ),
            MythEntity::Culture(e) => MythEntity::Culture(Culture { metadata: m, ..*e }),
            MythEntity::Pantheon(e) => MythEntity::Pantheon(Pantheon { metadata: m, ..*e }),
            MythEntity::MythologicalEra(e) => MythEntity::MythologicalEra(
                MythologicalEra { metadata: m, ..*e },
            ),
            MythEntity::MythologicalRegion(e) => MythEntity::MythologicalRegion(
                MythologicalRegion { metadata: m, ..*e },
            ),
        }
    }

    /// The outgoing relationship identifiers: what the node and context
    /// kinds carry; empty for the edge kinds, which have no outgoing edges of
    /// their own.
    pub open spec fn spec_relationships(&self) -> Seq<MythId> {
        match self {
            MythEntity::Deity(e) => e.relationships@,
            MythEntity::Hero(e) => e.relationships@,
            MythEntity::Creature(e) => e.relationships@,
            MythEntity::Artifact(e) => e.relationships@,
            MythEntity::Location(e) => e.relationships@,
            MythEntity::Concept(e) => e.relationships@,
            MythEntity::Culture(e) => e.relationships@,
            MythEntity::Pantheon(e) => e.relationships@,
            MythEntity::MythologicalEra(e) => e.relationships@,
            MythEntity::MythologicalRegion(e) => e.relationships@,
            _ => Seq::<MythId>::empty(),
        }
    }

    /// The cultural axis: the owning culture's name for the kinds that have
    /// one, nothing for the edge kinds, free-standing cultures and regions.
    pub open spec fn spec_culture(&self) -> Option<Seq<char>> {
        match self {
            MythEntity::Deity(e) => Some(e.culture@),
            MythEntity::Hero(e) => Some(e.culture@),
            MythEntity::Creature(e) => Some(e.culture@),
            MythEntity::Artifact(e) => Some(e.culture@),
            MythEntity::Location(e) => Some(e.culture@),
            MythEntity::Concept(e) => Some(e.culture@),
            MythEntity::Pantheon(e) => Some(e.culture@),
            MythEntity::MythologicalEra(e) => Some(e.culture@),
            _ => None,
        }
    }

    /// The unique identifier of this entity.
    pub fn id(&self) -> (r: &MythId)
        ensures
            *r == self.spec_id(),
    {
        match self {
            MythEntity::Deity(e) => &e.id,
            MythEntity::Hero(e) => &e.id,
            MythEntity::Creature(e) => &e.id,
            MythEntity::Artifact(e) => &e.id,
            MythEntity::Location(e) => &e.id,
            MythEntity::Concept(e) => &e.id,
            MythEntity::Relationship(e) => &e.id,
            MythEntity::FamilyRelationship(e) => &e.relationship.id,
            MythEntity::AllianceRelationship(e) => &e.relationship.id,
            MythEntity::ConflictRelationship(e) => &e.relationship.id,
            MythEntity::TransformationRelationship(e) => &e.relationship.id,
            MythEntity::Culture(e) => &e.id,
            MythEntity::Pantheon(e) => &e.id,
            MythEntity::MythologicalEra(e) => &e.id,
            MythEntity::MythologicalRegion(e) => &e.id,
        }
    }

    /// The name of this entity.
    pub fn name(&self) -> (r: &str)
        ensures
            r@ == self.spec_name(),
    {
        match self {
            MythEntity::Deity(e) => e.name.as_str(),
            MythEntity::Hero(e) => e.name.as_str(),
            MythEntity::Creature(e) => e.name.as_str(),
            MythEntity::Artifact(e) => e.name.as_str(),
            MythEntity::Location(e) => e.name.as_str(),
            MythEntity::Concept(e) => e.name.as_str(),
            MythEntity::Relationship(e) => e.name.as_str(),
            MythEntity::FamilyRelationship(e) => e.relationship.name.as_str(),
            MythEntity::AllianceRelationship(e) => e.relationship.name.as_str(),
            MythEntity::ConflictRelationship(e) => e.relationship.name.as_str(),
            MythEntity::TransformationRelationship(e) => e.relationship.name.as_str(),
            MythEntity::Culture(e) => e.name.as_str(),
            MythEntity::Pantheon(e) => e.name.as_str(),
            MythEntity::MythologicalEra(e) => e.name.as_str(),
            MythEntity::MythologicalRegion(e) => e.name.as_str(),
        }
    }

    /// The metadata of this entity.
    pub fn metadata(&self) -> (r: &Metadata)
        ensures
            *r == self.spec_metadata(),
    {
        match self {
            MythEntity::Deity(e) => &e.metadata,
            MythEntity::Hero(e) => &e.metadata,
            MythEntity::Creature(e) => &e.metadata,
            MythEntity::Artifact(e) => &e.metadata,
            MythEntity::Location(e) => &e.metadata,
            MythEntity::Concept(e) => &e.metadata,
            MythEntity::Relationship(e) => &e.metadata,
            MythEntity::FamilyRelationship(e) => &e.relationship.metadata,
            MythEntity::AllianceRelationship(e) => &e.relationship.metadata,
            MythEntity::ConflictRelationship(e) => &e.relationship.metadata,
            MythEntity::TransformationRelationship(e) => &e.relationship.metadata,
            MythEntity::Culture(e) => &e.metadata,
            MythEntity::Pantheon(e) => &e.metadata,
            MythEntity::MythologicalEra(e) => &e.metadata,
            MythEntity::MythologicalRegion(e) => &e.metadata,
        }
    }

    /// Mutable access to the metadata of this entity; everything else stays
    /// as it was.
    pub fn metadata_mut(&mut self) -> (r: &mut Metadata)
        ensures
            *r == old(self).spec_metadata(),
            *final(self) == old(self).spec_with_metadata(*final(r)),
    {
        match self {
            MythEntity::Deity(e) => &mut e.metadata,
            MythEntity::Hero(e) => &mut e.metadata,
            MythEntity::Creature(e) => &mut e.metadata,
            MythEntity::Artifact(e) => &mut e.metadata,
            MythEntity::Location(e) => &mut e.metadata,
            MythEntity::Concept(e) => &mut e.metadata,
            MythEntity::Relationship(e) => &mut e.metadata,
            MythEntity::FamilyRelationship(e) => &mut e.relationship.metadata,
            MythEntity::AllianceRelationship(e) => &mut e.relationship.metadata,
            MythEntity::ConflictRelationship(e) => &mut e.relationship.metadata,
            MythEntity::TransformationRelationship(e) => &mut e.relationship.metadata,
            MythEntity::Culture(e) => &mut e.metadata,
            MythEntity::Pantheon(e) => &mut e.metadata,
            MythEntity::MythologicalEra(e) => &mut e.metadata,
            MythEntity::MythologicalRegion(e) => &mut e.metadata,
        }
    }

    /// The stable type tag of this entity, one of the fifteen kind names.
    pub fn entity_type(&self) -> (r: &'static str)
        ensures
            r@ == self.spec_entity_type(),
    {
        match self {
            MythEntity::Deity(_) => "Deity",
            MythEntity::Hero(_) => "Hero",
            MythEntity::Creature(_) => "Creature",
            MythEntity::Artifact(_) => "Artifact",
            MythEntity::Location(_) => "Location",
            MythEntity::Concept(_) => "Concept",
            MythEntity::Relationship(_) => "Relationship",
            MythEntity::FamilyRelationship(_) => "FamilyRelationship",
            MythEntity::AllianceRelationship(_) => "AllianceRelationship",
            MythEntity::ConflictRelationship(_) => "ConflictRelationship",
            MythEntity::TransformationRelationship(_) => "TransformationRelationship",
            MythEntity::Culture(_) => "Culture",
            MythEntity::Pantheon(_) => "Pantheon",
            MythEntity::MythologicalEra(_) => "MythologicalEra",
            MythEntity::MythologicalRegion(_) => "MythologicalRegion",
        }
    }

    /// The outgoing relationship identifiers this entity carries.
    pub fn relationships(&self) -> (r: Vec<MythId>)
        ensures
            r@ == self.spec_relationships(),
    {
        match self {
            MythEntity::Deity(e) => copy_ids(&e.relationships),
            MythEntity::Hero(e) => copy_ids(&e.relationships),
            MythEntity::Creature(e) => copy_ids(&e.relationships),
            MythEntity::Artifact(e) => copy_ids(&e.relationships),
            MythEntity::Location(e) => copy_ids(&e.relationships),
            MythEntity::Concept(e) => copy_ids(&e.relationships),
            MythEntity::Culture(e) => copy_ids(&e.relationships),
            MythEntity::Pantheon(e) => copy_ids(&e.relationships),
            MythEntity::MythologicalEra(e) => copy_ids(&e.relationships),
            MythEntity::MythologicalRegion(e) => copy_ids(&e.relationships),
            _ => Vec::new(),
        }
    }

    /// The owning culture of this entity, for the kinds that have one.
    pub fn culture(&self) -> (r: Option<&CultureId>)
        ensures
            match r {
                Some(c) => self.spec_culture() == Some(c@),
                None => self.spec_culture() is None,
            },
    {
        match self {
            MythEntity::Deity(e) => Some(&e.culture),
            MythEntity::Hero(e) => Some(&e.culture),
            MythEntity::Creature(e) => Some(&e.culture),
            MythEntity::Artifact(e) => Some(&e.culture),
            MythEntity::Location(e) => Some(&e.culture),
            MythEntity::Concept(e) => Some(&e.culture),
            MythEntity::Pantheon(e) => Some(&e.culture),
            MythEntity::MythologicalEra(e) => Some(&e.culture),
            _ => None,
        }
    }

    /// The owning culture's name, for the kinds that have one.
    pub fn culture_name(&self) -> (r: Option<&str>)
        ensures
            match r {
                Some(c) => self.spec_culture() == Some(c@),
                None => self.spec_culture() is None,
            },
    {
        match self.culture() {
            Some(c) => Some(c.value()),
            None => None,
        }
    }
}

} // verus!
