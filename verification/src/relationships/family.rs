//! Family relationships: parenthood, marriage, siblinghood and their kin,
//! each kind with a defined inverse and a default directionality.

use vstd::prelude::*;
use crate::ids::MythId;
use crate::metadata::{Metadata, Source, attr_lookup, attrs_get, attrs_set};
use crate::relationships::relationship::{
    Relationship, RelationshipBuilder, RelationshipType, Relatable, Invertible, Properties,
    clamp_strength,
};

verus! {

/// Type of family relationship.
#[derive(Debug, Clone, PartialEq)]
pub enum FamilyRelationshipType {
    Parent,
    Child,
    Sibling,
    Spouse,
    Ancestor,
    Descendant,
    Twin,
    Cousin,
    Other(String),
}

impl Invertible for FamilyRelationshipType {
    /// Parenthood and ancestry swap direction; every other kind is its own
    /// inverse.
    open spec fn spec_inverse(&self) -> FamilyRelationshipType {
        match self {
            FamilyRelationshipType::Parent => FamilyRelationshipType::Child,
            FamilyRelationshipType::Child => FamilyRelationshipType::Parent,
            FamilyRelationshipType::Ancestor => FamilyRelationshipType::Descendant,
            FamilyRelationshipType::Descendant => FamilyRelationshipType::Ancestor,
            _ => *self,
        }
    }

    /// Sibling, spouse, twin and cousin bonds read the same in both
    /// directions; the generational kinds do not.
    open spec fn spec_typically_bidirectional(&self) -> bool {
        match self {
            FamilyRelationshipType::Sibling => true,
            FamilyRelationshipType::Spouse => true,
            FamilyRelationshipType::Twin => true,
            FamilyRelationshipType::Cousin => true,
            _ => false,
        }
    }

    fn inverse(&self) -> (r: FamilyRelationshipType) {
        match self {
            FamilyRelationshipType::Parent => FamilyRelationshipType::Child,
            FamilyRelationshipType::Child => FamilyRelationshipType::Parent,
            FamilyRelationshipType::Ancestor => FamilyRelationshipType::Descendant,
            FamilyRelationshipType::Descendant => FamilyRelationshipType::Ancestor,
            FamilyRelationshipType::Sibling => FamilyRelationshipType::Sibling,
            FamilyRelationshipType::Spouse => FamilyRelationshipType::Spouse,
            FamilyRelationshipType::Twin => FamilyRelationshipType::Twin,
            FamilyRelationshipType::Cousin => FamilyRelationshipType::Cousin,
            FamilyRelationshipType::Other(s) => FamilyRelationshipType::Other(s.clone()),
        }
    }

    fn is_typically_bidirectional(&self) -> (r: bool) {
        match self {
            FamilyRelationshipType::Sibling => true,
            FamilyRelationshipType::Spouse => true,
            FamilyRelationshipType::Twin => true,
            FamilyRelationshipType::Cousin => true,
            _ => false,
        }
    }
}

/// The symmetric family kinds are their own inverse, parenthood and
/// ancestry swap direction, and inverting twice always returns the original
/// kind.
pub proof fn lemma_family_inverse(t: FamilyRelationshipType)
    ensures
        (t == FamilyRelationshipType::Sibling || t == FamilyRelationshipType::Spouse || t
            == FamilyRelationshipType::Twin || t == FamilyRelationshipType::Cousin)
            ==> t.spec_inverse() == t,
        t == FamilyRelationshipType::Parent ==> t.spec_inverse() == FamilyRelationshipType::Child,
        t == FamilyRelationshipType::Child ==> t.spec_inverse() == FamilyRelationshipType::Parent,
        t == FamilyRelationshipType::Ancestor ==> t.spec_inverse()
            == FamilyRelationshipType::Descendant,
        t == FamilyRelationshipType::Descendant ==> t.spec_inverse()
            == FamilyRelationshipType::Ancestor,
        t.spec_inverse().spec_inverse() == t,
{
}

/// A family relationship between mythological entities.
#[derive(Debug, Clone)]
pub struct FamilyRelationship {
    /// The base relationship record.
    pub relationship: Relationship,
    /// Type of family relationship.
    pub family_type: FamilyRelationshipType,
    /// Additional properties for extensibility; lookup takes the first pair
    /// with a matching key.
    pub properties: Vec<(String, String)>,
}

impl FamilyRelationship {
    /// A new family relationship whose directionality follows the kind's
    /// typical rule.
    pub fn new(
        name: &str,
        description: &str,
        source_id: MythId,
        target_id: MythId,
        family_type: FamilyRelationshipType,
    ) -> (r: FamilyRelationship)
        ensures
            r.relationship.name@ == name@,
            r.relationship.description@ == description@,
            r.relationship.source_id == source_id,
            r.relationship.target_id == target_id,
            r.relationship.relationship_type == RelationshipType::Family,
            r.relationship.strength == 500,
            r.relationship.bidirectional == family_type.spec_typically_bidirectional(),
            r.family_type == family_type,
            r.properties@ == Seq::<(String, String)>::empty(),
            r.relationship.metadata.sources@ == Seq::<Source>::empty(),
            r.relationship.metadata.attributes@ == Seq::<(String, String)>::empty(),
    {
        let bidirectional = family_type.is_typically_bidirectional();
        let relationship = RelationshipBuilder::new(
            name,
            description,
            source_id,
            target_id,
            RelationshipType::Family,
        ).bidirectional(bidirectional).build();
        FamilyRelationship { relationship, family_type, properties: Vec::new() }
    }

    /// The family relationship type.
    pub fn family_type(&self) -> (r: &FamilyRelationshipType)
        ensures
            *r == self.family_type,
    {
        &self.family_type
    }

    /// Set the family relationship type; directionality follows the new
    /// kind's typical rule.
    pub fn set_family_type(&mut self, family_type: FamilyRelationshipType)
        ensures
            final(self).family_type == family_type,
            final(self).relationship == (Relationship {
                bidirectional: family_type.spec_typically_bidirectional(),
                ..old(self).relationship
            }),
            final(self).properties@ == old(self).properties@,
    {
        let bidirectional = family_type.is_typically_bidirectional();
        self.family_type = family_type;
        self.relationship.set_bidirectional(bidirectional);
    }

    /// Start configuring a family relationship; strength and directionality
    /// take the defaults until overridden.
    pub fn builder(
        name: &str,
        description: &str,
        source_id: MythId,
        target_id: MythId,
        family_type: FamilyRelationshipType,
    ) -> (r: FamilyRelationshipBuilder)
        ensures
            r.name@ == name@,
            r.description@ == description@,
            r.source_id == source_id,
            r.target_id == target_id,
            r.family_type == family_type,
            r.bidirectional == family_type.spec_typically_bidirectional(),
            r.strength == 500,
            r.properties@ == Seq::<(String, String)>::empty(),
    {
        let bidirectional = family_type.is_typically_bidirectional();
        FamilyRelationshipBuilder {
            name: name.to_owned(),
            description: description.to_owned(),
            source_id,
            target_id,
            family_type,
            bidirectional,
            strength: 500,
            properties: Vec::new(),
        }
    }
}

/// Fluent configuration for a family relationship.
pub struct FamilyRelationshipBuilder {
    /// Name of the relationship.
    pub name: String,
    /// Description of the relationship.
    pub description: String,
    /// Source entity identifier.
    pub source_id: MythId,
    /// Target entity identifier.
    pub target_id: MythId,
    /// Type of family relationship.
    pub family_type: FamilyRelationshipType,
    /// Whether the relationship is bidirectional.
    pub bidirectional: bool,
    /// Strength, in thousandths of the unit interval; clamped when built.
    pub strength: i64,
    /// Additional properties.
    pub properties: Vec<(String, String)>,
}

impl FamilyRelationshipBuilder {
    /// Configure the strength.
    pub fn strength(self, strength: i64) -> (r: FamilyRelationshipBuilder)
        ensures
            r == (FamilyRelationshipBuilder { strength, ..self }),
    {
        let mut b = self;
        b.strength = strength;
        b
    }

    /// Configure the directionality.
    pub fn bidirectional(self, bidirectional: bool) -> (r: FamilyRelationshipBuilder)
        ensures
            r == (FamilyRelationshipBuilder { bidirectional, ..self }),
    {
        let mut b = self;
        b.bidirectional = bidirectional;
        b
    }

    /// Add a custom property.
    pub fn property(self, key: &str, value: &str) -> (r: FamilyRelationshipBuilder)
        ensures
            (r == (FamilyRelationshipBuilder { properties: r.properties, ..self })),
            attr_lookup(r.properties@, key@) == Some(value@),
            forall|k2: Seq<char>| k2 != key@ ==> attr_lookup(r.properties@, k2) == attr_lookup(
                self.properties@,
                k2,
            ),
    {
        let mut b = self;
        attrs_set(&mut b.properties, key, value);
        b
    }

    /// Finish, yielding the configured family relationship.
    pub fn build(self) -> (r: FamilyRelationship)
        ensures
            r.relationship.name@ == self.name@,
            r.relationship.description@ == self.description@,
            r.relationship.source_id == self.source_id,
            r.relationship.target_id == self.target_id,
            r.relationship.relationship_type == RelationshipType::Family,
            r.relationship.strength == clamp_strength(self.strength as int),
            r.relationship.bidirectional == self.bidirectional,
            r.family_type == self.family_type,
            r.properties@ == self.properties@,
            r.relationship.metadata.sources@ == Seq::<Source>::empty(),
            r.relationship.metadata.attributes@ == Seq::<(String, String)>::empty(),
    {
        let relationship = RelationshipBuilder::new(
            self.name.as_str(),
            self.description.as_str(),
            self.source_id,
            self.target_id,
            RelationshipType::Family,
        ).bidirectional(self.bidirectional).strength(self.strength).build();
        FamilyRelationship {
            relationship,
            family_type: self.family_type,
            properties: self.properties,
        }
    }
}

impl Relatable for FamilyRelationship {
    open spec fn spec_base(&self) -> Relationship {
        self.relationship
    }

    open spec fn extras_unchanged(&self, other: &FamilyRelationship) -> bool {
        self.family_type == other.family_type && self.properties@ == other.properties@
    }

    fn base(&self) -> (r: &Relationship) {
        &self.relationship
    }

    fn id(&self) -> (r: &MythId) {
        &self.relationship.id
    }

    fn name(&self) -> (r: &str) {
        self.relationship.name.as_str()
    }

    fn description(&self) -> (r: &str) {
        self.relationship.description.as_str()
    }

    fn source_id(&self) -> (r: &MythId) {
        &self.relationship.source_id
    }

    fn target_id(&self) -> (r: &MythId) {
        &self.relationship.target_id
    }

    fn relationship_type(&self) -> (r: &RelationshipType) {
        &self.relationship.relationship_type
    }

    fn strength(&self) -> (r: u32) {
        self.relationship.strength
    }

    fn set_strength(&mut self, strength: i64) {
        self.relationship.set_strength(strength);
    }

    fn is_bidirectional(&self) -> (r: bool) {
        self.relationship.bidirectional
    }

    fn set_bidirectional(&mut self, bidirectional: bool) {
        self.relationship.set_bidirectional(bidirectional);
    }

    fn metadata(&self) -> (r: &Metadata) {
        &self.relationship.metadata
    }
}

impl Properties for FamilyRelationship {
    /// Every property of a family relationship lives in the generic bag.
    open spec fn spec_property(&self, name: Seq<char>) -> Option<Seq<char>> {
        attr_lookup(self.properties@, name)
    }

    /// A set property reads back as the value written.
    open spec fn spec_set_result(name: Seq<char>, value: Seq<char>) -> Option<Seq<char>> {
        Some(value)
    }

    open spec fn core_unchanged(&self, other: &FamilyRelationship) -> bool {
        self.relationship == other.relationship && self.family_type == other.family_type
    }

    fn get_property(&self, name: &str) -> (r: Option<&str>) {
        match attrs_get(&self.properties, name) {
            Some(v) => Some(v.as_str()),
            None => None,
        }
    }

    fn set_property(&mut self, name: &str, value: &str) {
        attrs_set(&mut self.properties, name, value);
    }
}

} // verus!
