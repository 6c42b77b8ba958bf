//! Conflict relationships: wars, duels, rivalries and the like, with an
//! optional resolved outcome; curses and punishments default to one
//! direction.

use vstd::prelude::*;
use crate::ids::MythId;
use crate::metadata::{Metadata, Source, attr_lookup, attrs_get, attrs_set};
use crate::relationships::relationship::{
    Relationship, RelationshipBuilder, RelationshipType, Relatable, Invertible, Properties,
    clamp_strength,
};

verus! {

/// Type of conflict.
#[derive(Debug, Clone, PartialEq)]
pub enum ConflictType {
    War,
    Battle,
    Duel,
    Rivalry,
    Contest,
    Betrayal,
    Curse,
    Punishment,
    Other(String),
}

impl Invertible for ConflictType {
    /// Every conflict kind is its own inverse.
    open spec fn spec_inverse(&self) -> ConflictType {
        *self
    }

    /// Curses and punishments typically run one way; every other kind is
    /// symmetric.
    open spec fn spec_typically_bidirectional(&self) -> bool {
        match self {
            ConflictType::Curse => false,
            ConflictType::Punishment => false,
            _ => true,
        }
    }

    fn inverse(&self) -> (r: ConflictType) {
        match self {
            ConflictType::War => ConflictType::War,
            ConflictType::Battle => ConflictType::Battle,
            ConflictType::Duel => ConflictType::Duel,
            ConflictType::Rivalry => ConflictType::Rivalry,
            ConflictType::Contest => ConflictType::Contest,
            ConflictType::Betrayal => ConflictType::Betrayal,
            ConflictType::Curse => ConflictType::Curse,
            ConflictType::Punishment => ConflictType::Punishment,
            ConflictType::Other(s) => ConflictType::Other(s.clone()),
        }
    }

    fn is_typically_bidirectional(&self) -> (r: bool) {
        match self {
            ConflictType::Curse => false,
            ConflictType::Punishment => false,
            _ => true,
        }
    }
}

/// Outcome of a conflict.
#[derive(Debug, Clone, PartialEq)]
pub struct ConflictOutcome {
    /// Description of the outcome.
    pub description: String,
    /// Identifier of the victor, if any.
    pub victor_id: Option<MythId>,
    /// Consequences of the conflict.
    pub consequences: Vec<String>,
}

/// A conflict relationship between mythological entities.
#[derive(Debug, Clone)]
pub struct ConflictRelationship {
    /// The base relationship record.
    pub relationship: Relationship,
    /// Type of conflict.
    pub conflict_type: ConflictType,
    /// Outcome of the conflict, if resolved.
    pub outcome: Option<ConflictOutcome>,
    /// Additional properties for extensibility; lookup takes the first pair
    /// with a matching key.
    pub properties: Vec<(String, String)>,
}

impl ConflictRelationship {
    /// A new conflict whose directionality follows the kind's typical rule.
    pub fn new(
        name: &str,
        description: &str,
        source_id: MythId,
        target_id: MythId,
        conflict_type: ConflictType,
    ) -> (r: ConflictRelationship)
        ensures
            r.relationship.name@ == name@,
            r.relationship.description@ == description@,
            r.relationship.source_id == source_id,
            r.relationship.target_id == target_id,
            r.relationship.relationship_type == RelationshipType::Conflict,
            r.relationship.strength == 500,
            r.relationship.bidirectional == conflict_type.spec_typically_bidirectional(),
            r.conflict_type == conflict_type,
            r.outcome is None,
            r.properties@ == Seq::<(String, String)>::empty(),
            r.relationship.metadata.sources@ == Seq::<Source>::empty(),
            r.relationship.metadata.attributes@ == Seq::<(String, String)>::empty(),
    {
        let bidirectional = conflict_type.is_typically_bidirectional();
        let relationship = RelationshipBuilder::new(
            name,
            description,
            source_id,
            target_id,
            RelationshipType::Conflict,
        ).bidirectional(bidirectional).build();
        ConflictRelationship { relationship, conflict_type, outcome: None, properties: Vec::new() }
    }

    /// The conflict type.
    pub fn conflict_type(&self) -> (r: &ConflictType)
        ensures
            *r == self.conflict_type,
    {
        &self.conflict_type
    }

    /// Set the conflict type.
    pub fn set_conflict_type(&mut self, conflict_type: ConflictType)
        ensures
            (*final(self) == (ConflictRelationship { conflict_type, ..(*old(self)) })),
    {
        self.conflict_type = conflict_type;
    }

    /// The outcome, if resolved.
    pub fn outcome(&self) -> (r: Option<&ConflictOutcome>)
        ensures
            match r {
                Some(o) => self.outcome matches Some(p) && p == *o,
                None => self.outcome is None,
            },
    {
        self.outcome.as_ref()
    }

    /// Record the outcome.
    pub fn set_outcome(&mut self, outcome: ConflictOutcome)
        ensures
            (*final(self) == (ConflictRelationship {
                outcome: Some(outcome),
                ..(*old(self))
            })),
    {
        self.outcome = Some(outcome);
    }

    /// Start configuring a conflict; strength and directionality take the
    /// defaults until overridden.
    pub fn builder(
        name: &str,
        description: &str,
        source_id: MythId,
        target_id: MythId,
        conflict_type: ConflictType,
    ) -> (r: ConflictRelationshipBuilder)
        ensures
            r.name@ == name@,
            r.description@ == description@,
            r.source_id == source_id,
            r.target_id == target_id,
            r.conflict_type == conflict_type,
            r.outcome is None,
            r.bidirectional == conflict_type.spec_typically_bidirectional(),
            r.strength == 500,
            r.properties@ == Seq::<(String, String)>::empty(),
    {
        let bidirectional = conflict_type.is_typically_bidirectional();
        ConflictRelationshipBuilder {
            name: name.to_owned(),
            description: description.to_owned(),
            source_id,
            target_id,
            conflict_type,
            outcome: None,
            bidirectional,
            strength: 500,
            properties: Vec::new(),
        }
    }
}

/// Fluent configuration for a conflict relationship.
pub struct ConflictRelationshipBuilder {
    /// Name of the relationship.
    pub name: String,
    /// Description of the relationship.
    pub description: String,
    /// Source entity identifier.
    pub source_id: MythId,
    /// Target entity identifier.
    pub target_id: MythId,
    /// Type of conflict.
    pub conflict_type: ConflictType,
    /// Outcome of the conflict, if resolved.
    pub outcome: Option<ConflictOutcome>,
    /// Whether the relationship is bidirectional.
    pub bidirectional: bool,
    /// Strength, in thousandths of the unit interval; clamped when built.
    pub strength: i64,
    /// Additional properties.
    pub properties: Vec<(String, String)>,
}

impl ConflictRelationshipBuilder {
    /// Configure the strength.
    pub fn strength(self, strength: i64) -> (r: ConflictRelationshipBuilder)
        ensures
            r == (ConflictRelationshipBuilder { strength, ..self }),
    {
        let mut b = self;
        b.strength = strength;
        b
    }

    /// Configure the directionality.
    pub fn bidirectional(self, bidirectional: bool) -> (r: ConflictRelationshipBuilder)
        ensures
            r == (ConflictRelationshipBuilder { bidirectional, ..self }),
    {
        let mut b = self;
        b.bidirectional = bidirectional;
        b
    }

    /// Configure the outcome.
    pub fn outcome(self, outcome: ConflictOutcome) -> (r: ConflictRelationshipBuilder)
        ensures
            r == (ConflictRelationshipBuilder { outcome: Some(outcome), ..self }),
    {
        let mut b = self;
        b.outcome = Some(outcome);
        b
    }

    /// Add a custom property.
    pub fn property(self, key: &str, value: &str) -> (r: ConflictRelationshipBuilder)
        ensures
            (r == (ConflictRelationshipBuilder { properties: r.properties, ..self })),
            attr_lookup(r.properties@, key@) == Some(value@),
            forall|k2: Seq<char>| k2 != key@ ==> attr_lookup(r.properties@, k2) == attr_lookup(
                self.properties@,
                k2,
            ),
    {
        let mut b = self;
        attrs_set(&mut b.properties, key, value);
        b
    }

    /// Finish, yielding the configured conflict relationship.
    pub fn build(self) -> (r: ConflictRelationship)
        ensures
            r.relationship.name@ == self.name@,
            r.relationship.description@ == self.description@,
            r.relationship.source_id == self.source_id,
            r.relationship.target_id == self.target_id,
            r.relationship.relationship_type == RelationshipType::Conflict,
            r.relationship.strength == clamp_strength(self.strength as int),
            r.relationship.bidirectional == self.bidirectional,
            r.conflict_type == self.conflict_type,
            r.outcome == self.outcome,
            r.properties@ == self.properties@,
            r.relationship.metadata.sources@ == Seq::<Source>::empty(),
            r.relationship.metadata.attributes@ == Seq::<(String, String)>::empty(),
    {
        let relationship = RelationshipBuilder::new(
            self.name.as_str(),
            self.description.as_str(),
            self.source_id,
            self.target_id,
            RelationshipType::Conflict,
        ).bidirectional(self.bidirectional).strength(self.strength).build();
        ConflictRelationship {
            relationship,
            conflict_type: self.conflict_type,
            outcome: self.outcome,
            properties: self.properties,
        }
    }
}

impl Relatable for ConflictRelationship {
    open spec fn spec_base(&self) -> Relationship {
        self.relationship
    }

    open spec fn extras_unchanged(&self, other: &ConflictRelationship) -> bool {
        self.conflict_type == other.conflict_type && self.outcome == other.outcome
            && self.properties@ == other.properties@
    }

    fn base(&self) -> (r: &Relationship) {
        &self.relationship
    }

    fn id(&self) -> (r: &MythId) {
        &self.relationship.id
    }

    fn name(&self) -> (r: &str) {
        self.relationship.name.as_str()
    }

    fn description(&self) -> (r: &str) {
        self.relationship.description.as_str()
    }

    fn source_id(&self) -> (r: &MythId) {
        &self.relationship.source_id
    }

    fn target_id(&self) -> (r: &MythId) {
        &self.relationship.target_id
    }

    fn relationship_type(&self) -> (r: &RelationshipType) {
        &self.relationship.relationship_type
    }

    fn strength(&self) -> (r: u32) {
        self.relationship.strength
    }

    fn set_strength(&mut self, strength: i64) {
        self.relationship.set_strength(strength);
    }

    fn is_bidirectional(&self) -> (r: bool) {
        self.relationship.bidirectional
    }

    fn set_bidirectional(&mut self, bidirectional: bool) {
        self.relationship.set_bidirectional(bidirectional);
    }

    fn metadata(&self) -> (r: &Metadata) {
        &self.relationship.metadata
    }
}

impl Properties for ConflictRelationship {
    /// Every property of a conflict relationship lives in the generic bag.
    open spec fn spec_property(&self, name: Seq<char>) -> Option<Seq<char>> {
        attr_lookup(self.properties@, name)
    }

    /// A set property reads back as the value written.
    open spec fn spec_set_result(name: Seq<char>, value: Seq<char>) -> Option<Seq<char>> {
        Some(value)
    }

    open spec fn core_unchanged(&self, other: &ConflictRelationship) -> bool {
        self.relationship == other.relationship && self.conflict_type == other.conflict_type
            && self.outcome == other.outcome
    }

    fn get_property(&self, name: &str) -> (r: Option<&str>) {
        match attrs_get(&self.properties, name) {
            Some(v) => Some(v.as_str()),
            None => None,
        }
    }

    fn set_property(&mut self, name: &str, value: &str) {
        attrs_set(&mut self.properties, name, value);
    }
}

} // verus!
