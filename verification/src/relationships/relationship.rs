//! The base relationship record: a typed, optionally symmetric edge between
//! two entity identifiers, with a strength score and a builder.
//!
//! Strength is kept in thousandths of the unit interval; setting it clamps
//! to that range rather than failing. A `bidirectional` edge carries the
//! same meaning traversed in either direction.

use vstd::prelude::*;
use crate::ids::MythId;
use crate::metadata::{Metadata, Source};

verus! {

/// Type of relationship between entities.
#[derive(Debug, Clone, PartialEq)]
pub enum RelationshipType {
    Family,
    Alliance,
    Conflict,
    Creation,
    Transformation,
    Worship,
    Possession,
    Guardianship,
    Teaching,
    Unknown,
    Other(String),
}

/// A strength score forced into the unit interval, in thousandths.
pub open spec fn clamp_strength(s: int) -> u32 {
    if s < 0 {
        0u32
    } else if s > 1000 {
        1000u32
    } else {
        s as u32
    }
}

/// Relationship types that have a semantic opposite and a typical
/// directionality.
pub trait Invertible: Sized {
    /// The semantic opposite of this type.
    spec fn spec_inverse(&self) -> Self;

    /// Whether edges of this type typically carry the same meaning in both
    /// directions.
    spec fn spec_typically_bidirectional(&self) -> bool;

    /// The semantic opposite of this type.
    fn inverse(&self) -> (r: Self)
        ensures
            r == self.spec_inverse(),
    ;

    /// Whether edges of this type typically carry the same meaning in both
    /// directions.
    fn is_typically_bidirectional(&self) -> (r: bool)
        ensures
            r == self.spec_typically_bidirectional(),
    ;
}

/// Relationships whose extra fields can be read and written by name, with a
/// generic property bag behind the named fields.
pub trait Properties: Sized {
    /// The value read back for a property name.
    spec fn spec_property(&self, name: Seq<char>) -> Option<Seq<char>>;

    /// The value a property reads back right after being set.
    spec fn spec_set_result(name: Seq<char>, value: Seq<char>) -> Option<Seq<char>>;

    /// The parts of the relationship no property read can see, unchanged.
    spec fn core_unchanged(&self, other: &Self) -> bool;

    /// Read a property by name.
    fn get_property(&self, name: &str) -> (r: Option<&str>)
        ensures
            (match r {
                Some(v) => self.spec_property(name@) == Some(v@),
                None => self.spec_property(name@) is None,
            }),
    ;

    /// Write a property by name.
    fn set_property(&mut self, name: &str, value: &str)
        ensures
            final(self).spec_property(name@) == Self::spec_set_result(name@, value@),
            forall|n2: Seq<char>| n2 != name@ ==> final(self).spec_property(n2) == old(
                self,
            ).spec_property(n2),
            final(self).core_unchanged(old(self)),
    ;
}

/// Common interface of the specialized relationship kinds, each of which
/// wraps one base relationship record.
pub trait Relatable: Sized {
    /// The base relationship record.
    spec fn spec_base(&self) -> Relationship;

    /// The kind-specific fields outside the base record, unchanged.
    spec fn extras_unchanged(&self, other: &Self) -> bool;

    /// The base relationship record.
    fn base(&self) -> (r: &Relationship)
        ensures
            *r == self.spec_base(),
    ;

    /// The relationship identifier.
    fn id(&self) -> (r: &MythId)
        ensures
            *r == self.spec_base().id,
    ;

    /// The relationship name.
    fn name(&self) -> (r: &str)
        ensures
            r@ == self.spec_base().name@,
    ;

    /// The relationship description.
    fn description(&self) -> (r: &str)
        ensures
            r@ == self.spec_base().description@,
    ;

    /// The source entity identifier.
    fn source_id(&self) -> (r: &MythId)
        ensures
            *r == self.spec_base().source_id,
    ;

    /// The target entity identifier.
    fn target_id(&self) -> (r: &MythId)
        ensures
            *r == self.spec_base().target_id,
    ;

    /// The relationship type.
    fn relationship_type(&self) -> (r: &RelationshipType)
        ensures
            *r == self.spec_base().relationship_type,
    ;

    /// The strength, in thousandths of the unit interval.
    fn strength(&self) -> (r: u32)
        ensures
            r == self.spec_base().strength,
    ;

    /// Set the strength, clamping it into the unit interval.
    fn set_strength(&mut self, strength: i64)
        ensures
            final(self).spec_base() == (Relationship {
                strength: clamp_strength(strength as int),
                ..old(self).spec_base()
            }),
            final(self).extras_unchanged(old(self)),
    ;

    /// Whether the relationship is bidirectional.
    fn is_bidirectional(&self) -> (r: bool)
        ensures
            r == self.spec_base().bidirectional,
    ;

    /// Set whether the relationship is bidirectional.
    fn set_bidirectional(&mut self, bidirectional: bool)
        ensures
            final(self).spec_base() == (Relationship {
                bidirectional,
                ..old(self).spec_base()
            }),
            final(self).extras_unchanged(old(self)),
    ;

    /// The relationship metadata.
    fn metadata(&self) -> (r: &Metadata)
        ensures
            *r == self.spec_base().metadata,
    ;
}

/// A relationship between two mythological entities.
#[derive(Debug, Clone)]
pub struct Relationship {
    /// Unique identifier.
    pub id: MythId,
    /// Name of the relationship.
    pub name: String,
    /// Description of the relationship.
    pub description: String,
    /// Source entity identifier.
    pub source_id: MythId,
    /// Target entity identifier.
    pub target_id: MythId,
    /// Type of relationship.
    pub relationship_type: RelationshipType,
    /// Strength or importance, in thousandths of the unit interval.
    pub strength: u32,
    /// Whether the relationship is bidirectional.
    pub bidirectional: bool,
    /// Provenance and bookkeeping.
    pub metadata: Metadata,
}

impl Relationship {
    /// A new relationship with a fresh identifier, default strength and no
    /// symmetry.
    pub fn new(
        name: &str,
        description: &str,
        source_id: MythId,
        target_id: MythId,
        relationship_type: RelationshipType,
    ) -> (r: Relationship)
        ensures
            r.name@ == name@,
            r.description@ == description@,
            r.source_id == source_id,
            r.target_id == target_id,
            r.relationship_type == relationship_type,
            r.strength == 500,
            r.bidirectional == false,
            r.metadata.sources@ == Seq::<Source>::empty(),
            r.metadata.attributes@ == Seq::<(String, String)>::empty(),
    {
        Relationship {
            id: MythId::new(),
            name: name.to_owned(),
            description: description.to_owned(),
            source_id,
            target_id,
            relationship_type,
            strength: 500,
            bidirectional: false,
            metadata: Metadata::new(),
        }
    }

    /// The source entity identifier.
    pub fn source_id(&self) -> (r: &MythId)
        ensures
            *r == self.source_id,
    {
        &self.source_id
    }

    /// The target entity identifier.
    pub fn target_id(&self) -> (r: &MythId)
        ensures
            *r == self.target_id,
    {
        &self.target_id
    }

    /// The relationship type.
    pub fn relationship_type(&self) -> (r: &RelationshipType)
        ensures
            *r == self.relationship_type,
    {
        &self.relationship_type
    }

    /// Set the strength, clamping it into the unit interval.
    pub fn set_strength(&mut self, strength: i64)
        ensures
            (*final(self) == (Relationship {
                strength: clamp_strength(strength as int),
                ..(*old(self))
            })),
    {
        self.strength = if strength < 0 {
            0
        } else if strength > 1000 {
            1000
        } else {
            strength as u32
        };
    }

    /// The strength, in thousandths of the unit interval.
    pub fn strength(&self) -> (r: u32)
        ensures
            r == self.strength,
    {
        self.strength
    }

    /// Set whether the relationship is bidirectional.
    pub fn set_bidirectional(&mut self, bidirectional: bool)
        ensures
            (*final(self) == (Relationship { bidirectional, ..(*old(self)) })),
    {
        self.bidirectional = bidirectional;
    }

    /// Whether the relationship is bidirectional.
    pub fn is_bidirectional(&self) -> (r: bool)
        ensures
            r == self.bidirectional,
    {
        self.bidirectional
    }
}

/// Fluent configuration for a base relationship.
pub struct RelationshipBuilder {
    /// The relationship under construction.
    pub relationship: Relationship,
}

impl RelationshipBuilder {
    /// Start building a relationship; strength and directionality take the
    /// defaults until configured.
    pub fn new(
        name: &str,
        description: &str,
        source_id: MythId,
        target_id: MythId,
        relationship_type: RelationshipType,
    ) -> (r: RelationshipBuilder)
        ensures
            r.relationship.name@ == name@,
            r.relationship.description@ == description@,
            r.relationship.source_id == source_id,
            r.relationship.target_id == target_id,
            r.relationship.relationship_type == relationship_type,
            r.relationship.strength == 500,
            r.relationship.bidirectional == false,
            r.relationship.metadata.sources@ == Seq::<Source>::empty(),
            r.relationship.metadata.attributes@ == Seq::<(String, String)>::empty(),
    {
        RelationshipBuilder {
            relationship: Relationship::new(name, description, source_id, target_id, relationship_type),
        }
    }

    /// Configure the strength, clamped into the unit interval.
    pub fn strength(self, strength: i64) -> (r: RelationshipBuilder)
        ensures
            r.relationship == (Relationship {
                strength: clamp_strength(strength as int),
                ..self.relationship
            }),
    {
        let mut b = self;
        b.relationship.set_strength(strength);
        b
    }

    /// Configure the directionality.
    pub fn bidirectional(self, bidirectional: bool) -> (r: RelationshipBuilder)
        ensures
            r.relationship == (Relationship { bidirectional, ..self.relationship }),
    {
        let mut b = self;
        b.relationship.set_bidirectional(bidirectional);
        b
    }

    /// Finish, yielding the configured relationship.
    pub fn build(self) -> (r: Relationship)
        ensures
            r == self.relationship,
    {
        self.relationship
    }
}

} // verus!
