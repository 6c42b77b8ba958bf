//! Alliance relationships: cooperative bonds with a purpose and an optional
//! duration; patronage and mentorship default to one direction.

use vstd::prelude::*;
use crate::ids::MythId;
use crate::metadata::{Metadata, Source, attr_lookup, attrs_get, attrs_set};
use crate::relationships::relationship::{
    Relationship, RelationshipBuilder, RelationshipType, Relatable, Invertible, Properties,
    clamp_strength,
};

verus! {

/// Type of alliance.
#[derive(Debug, Clone, PartialEq)]
pub enum AllianceType {
    Military,
    Political,
    Marriage,
    Oath,
    Pact,
    Friendship,
    Mentorship,
    /// Divine or royal sponsorship or protection.
    Patronage,
    /// Group alliance of multiple entities.
    Coalition,
    Other(String),
}

impl Invertible for AllianceType {
    /// Every alliance kind is its own inverse.
    open spec fn spec_inverse(&self) -> AllianceType {
        *self
    }

    /// Patronage and mentorship typically run one way; every other kind is
    /// symmetric.
    open spec fn spec_typically_bidirectional(&self) -> bool {
        match self {
            AllianceType::Patronage => false,
            AllianceType::Mentorship => false,
            _ => true,
        }
    }

    fn inverse(&self) -> (r: AllianceType) {
        match self {
            AllianceType::Military => AllianceType::Military,
            AllianceType::Political => AllianceType::Political,
            AllianceType::Marriage => AllianceType::Marriage,
            AllianceType::Oath => AllianceType::Oath,
            AllianceType::Pact => AllianceType::Pact,
            AllianceType::Friendship => AllianceType::Friendship,
            AllianceType::Mentorship => AllianceType::Mentorship,
            AllianceType::Patronage => AllianceType::Patronage,
            AllianceType::Coalition => AllianceType::Coalition,
            AllianceType::Other(s) => AllianceType::Other(s.clone()),
        }
    }

    fn is_typically_bidirectional(&self) -> (r: bool) {
        match self {
            AllianceType::Patronage => false,
            AllianceType::Mentorship => false,
            _ => true,
        }
    }
}

/// An alliance relationship between mythological entities.
#[derive(Debug, Clone)]
pub struct AllianceRelationship {
    /// The base relationship record.
    pub relationship: Relationship,
    /// Type of alliance.
    pub alliance_type: AllianceType,
    /// Purpose of the alliance.
    pub purpose: String,
    /// Duration of the alliance, if known.
    pub duration: Option<String>,
    /// Additional properties for extensibility; lookup takes the first pair
    /// with a matching key.
    pub properties: Vec<(String, String)>,
}

impl AllianceRelationship {
    /// A new alliance whose directionality follows the kind's typical rule.
    pub fn new(
        name: &str,
        description: &str,
        source_id: MythId,
        target_id: MythId,
        alliance_type: AllianceType,
        purpose: &str,
    ) -> (r: AllianceRelationship)
        ensures
            r.relationship.name@ == name@,
            r.relationship.description@ == description@,
            r.relationship.source_id == source_id,
            r.relationship.target_id == target_id,
            r.relationship.relationship_type == RelationshipType::Alliance,
            r.relationship.strength == 500,
            r.relationship.bidirectional == alliance_type.spec_typically_bidirectional(),
            r.alliance_type == alliance_type,
            r.purpose@ == purpose@,
            r.duration is None,
            r.properties@ == Seq::<(String, String)>::empty(),
            r.relationship.metadata.sources@ == Seq::<Source>::empty(),
            r.relationship.metadata.attributes@ == Seq::<(String, String)>::empty(),
    {
        let bidirectional = alliance_type.is_typically_bidirectional();
        let relationship = RelationshipBuilder::new(
            name,
            description,
            source_id,
            target_id,
            RelationshipType::Alliance,
        ).bidirectional(bidirectional).build();
        AllianceRelationship {
            relationship,
            alliance_type,
            purpose: purpose.to_owned(),
            duration: None,
            properties: Vec::new(),
        }
    }

    /// The alliance type.
    pub fn alliance_type(&self) -> (r: &AllianceType)
        ensures
            *r == self.alliance_type,
    {
        &self.alliance_type
    }

    /// Set the alliance type.
    pub fn set_alliance_type(&mut self, alliance_type: AllianceType)
        ensures
            (*final(self) == (AllianceRelationship { alliance_type, ..(*old(self)) })),
    {
        self.alliance_type = alliance_type;
    }

    /// The purpose.
    pub fn purpose(&self) -> (r: &str)
        ensures
            r@ == self.purpose@,
    {
        self.purpose.as_str()
    }

    /// Set the purpose.
    pub fn set_purpose(&mut self, purpose: &str)
        ensures
            (*final(self) == (AllianceRelationship {
                purpose: final(self).purpose,
                ..(*old(self))
            })),
            final(self).purpose@ == purpose@,
    {
        self.purpose = purpose.to_owned();
    }

    /// The duration, if known.
    pub fn duration(&self) -> (r: Option<&str>)
        ensures
            match r {
                Some(d) => self.duration matches Some(e) && e@ == d@,
                None => self.duration is None,
            },
    {
        match &self.duration {
            Some(d) => Some(d.as_str()),
            None => None,
        }
    }

    /// Set the duration.
    pub fn set_duration(&mut self, duration: &str)
        ensures
            (*final(self) == (AllianceRelationship {
                duration: final(self).duration,
                ..(*old(self))
            })),
            final(self).duration matches Some(d) && d@ == duration@,
    {
        self.duration = Some(duration.to_owned());
    }

    /// Start configuring an alliance; strength and directionality take the
    /// defaults until overridden.
    pub fn builder(
        name: &str,
        description: &str,
        source_id: MythId,
        target_id: MythId,
        alliance_type: AllianceType,
        purpose: &str,
    ) -> (r: AllianceRelationshipBuilder)
        ensures
            r.name@ == name@,
            r.description@ == description@,
            r.source_id == source_id,
            r.target_id == target_id,
            r.alliance_type == alliance_type,
            r.purpose@ == purpose@,
            r.duration is None,
            r.bidirectional == alliance_type.spec_typically_bidirectional(),
            r.strength == 500,
            r.properties@ == Seq::<(String, String)>::empty(),
    {
        let bidirectional = alliance_type.is_typically_bidirectional();
        AllianceRelationshipBuilder {
            name: name.to_owned(),
            description: description.to_owned(),
            source_id,
            target_id,
            alliance_type,
            purpose: purpose.to_owned(),
            duration: None,
            bidirectional,
            strength: 500,
            properties: Vec::new(),
        }
    }
}

/// Fluent configuration for an alliance relationship.
pub struct AllianceRelationshipBuilder {
    /// Name of the relationship.
    pub name: String,
    /// Description of the relationship.
    pub description: String,
    /// Source entity identifier.
    pub source_id: MythId,
    /// Target entity identifier.
    pub target_id: MythId,
    /// Type of alliance.
    pub alliance_type: AllianceType,
    /// Purpose of the alliance.
    pub purpose: String,
    /// Duration of the alliance, if known.
    pub duration: Option<String>,
    /// Whether the relationship is bidirectional.
    pub bidirectional: bool,
    /// Strength, in thousandths of the unit interval; clamped when built.
    pub strength: i64,
    /// Additional properties.
    pub properties: Vec<(String, String)>,
}

impl AllianceRelationshipBuilder {
    /// Configure the strength.
    pub fn strength(self, strength: i64) -> (r: AllianceRelationshipBuilder)
        ensures
            r == (AllianceRelationshipBuilder { strength, ..self }),
    {
        let mut b = self;
        b.strength = strength;
        b
    }

    /// Configure the directionality.
    pub fn bidirectional(self, bidirectional: bool) -> (r: AllianceRelationshipBuilder)
        ensures
            r == (AllianceRelationshipBuilder { bidirectional, ..self }),
    {
        let mut b = self;
        b.bidirectional = bidirectional;
        b
    }

    /// Configure the duration.
    pub fn duration(self, duration: &str) -> (r: AllianceRelationshipBuilder)
        ensures
            (r == (AllianceRelationshipBuilder { duration: r.duration, ..self })),
            r.duration matches Some(d) && d@ == duration@,
    {
        let mut b = self;
        b.duration = Some(duration.to_owned());
        b
    }

    /// Add a custom property.
    pub fn property(self, key: &str, value: &str) -> (r: AllianceRelationshipBuilder)
        ensures
            (r == (AllianceRelationshipBuilder { properties: r.properties, ..self })),
            attr_lookup(r.properties@, key@) == Some(value@),
            forall|k2: Seq<char>| k2 != key@ ==> attr_lookup(r.properties@, k2) == attr_lookup(
                self.properties@,
                k2,
            ),
    {
        let mut b = self;
        attrs_set(&mut b.properties, key, value);
        b
    }

    /// Finish, yielding the configured alliance relationship.
    pub fn build(self) -> (r: AllianceRelationship)
        ensures
            r.relationship.name@ == self.name@,
            r.relationship.description@ == self.description@,
            r.relationship.source_id == self.source_id,
            r.relationship.target_id == self.target_id,
            r.relationship.relationship_type == RelationshipType::Alliance,
            r.relationship.strength == clamp_strength(self.strength as int),
            r.relationship.bidirectional == self.bidirectional,
            r.alliance_type == self.alliance_type,
            r.purpose@ == self.purpose@,
            r.duration == self.duration,
            r.properties@ == self.properties@,
            r.relationship.metadata.sources@ == Seq::<Source>::empty(),
            r.relationship.metadata.attributes@ == Seq::<(String, String)>::empty(),
    {
        let relationship = RelationshipBuilder::new(
            self.name.as_str(),
            self.description.as_str(),
            self.source_id,
            self.target_id,
            RelationshipType::Alliance,
        ).bidirectional(self.bidirectional).strength(self.strength).build();
        AllianceRelationship {
            relationship,
            alliance_type: self.alliance_type,
            purpose: self.purpose,
            duration: self.duration,
            properties: self.properties,
        }
    }
}

impl Relatable for AllianceRelationship {
    open spec fn spec_base(&self) -> Relationship {
        self.relationship
    }

    open spec fn extras_unchanged(&self, other: &AllianceRelationship) -> bool {
        self.alliance_type == other.alliance_type && self.purpose@ == other.purpose@
            && self.duration == other.duration && self.properties@ == other.properties@
    }

    fn base(&self) -> (r: &Relationship) {
        &self.relationship
    }

    fn id(&self) -> (r: &MythId) {
        &self.relationship.id
    }

    fn name(&self) -> (r: &str) {
        self.relationship.name.as_str()
    }

    fn description(&self) -> (r: &str) {
        self.relationship.description.as_str()
    }

    fn source_id(&self) -> (r: &MythId) {
        &self.relationship.source_id
    }

    fn target_id(&self) -> (r: &MythId) {
        &self.relationship.target_id
    }

    fn relationship_type(&self) -> (r: &RelationshipType) {
        &self.relationship.relationship_type
    }

    fn strength(&self) -> (r: u32) {
        self.relationship.strength
    }

    fn set_strength(&mut self, strength: i64) {
        self.relationship.set_strength(strength);
    }

    fn is_bidirectional(&self) -> (r: bool) {
        self.relationship.bidirectional
    }

    fn set_bidirectional(&mut self, bidirectional: bool) {
        self.relationship.set_bidirectional(bidirectional);
    }

    fn metadata(&self) -> (r: &Metadata) {
        &self.relationship.metadata
    }
}

impl Properties for AllianceRelationship {
    /// The purpose and duration fields answer for their names; every other
    /// property lives in the generic bag.
    open spec fn spec_property(&self, name: Seq<char>) -> Option<Seq<char>> {
        if name == "purpose"@ {
            Some(self.purpose@)
        } else if name == "duration"@ {
            match self.duration {
                Some(d) => Some(d@),
                None => None,
            }
        } else {
            attr_lookup(self.properties@, name)
        }
    }

    /// A set property reads back as the value written.
    open spec fn spec_set_result(name: Seq<char>, value: Seq<char>) -> Option<Seq<char>> {
        Some(value)
    }

    open spec fn core_unchanged(&self, other: &AllianceRelationship) -> bool {
        self.relationship == other.relationship && self.alliance_type == other.alliance_type
    }

    fn get_property(&self, name: &str) -> (r: Option<&str>) {
        proof {
            reveal_strlit("purpose");
            reveal_strlit("duration");
        }
        let name_string = name.to_owned();
        if name_string == "purpose".to_owned() {
            Some(self.purpose.as_str())
        } else if name_string == "duration".to_owned() {
            match &self.duration {
                Some(d) => Some(d.as_str()),
                None => None,
            }
        } else {
            match attrs_get(&self.properties, name) {
                Some(v) => Some(v.as_str()),
                None => None,
            }
        }
    }

    fn set_property(&mut self, name: &str, value: &str) {
        proof {
            reveal_strlit("purpose");
            reveal_strlit("duration");
        }
        let name_string = name.to_owned();
        if name_string == "purpose".to_owned() {
            self.purpose = value.to_owned();
        } else if name_string == "duration".to_owned() {
            self.duration = Some(value.to_owned());
        } else {
            attrs_set(&mut self.properties, name, value);
        }
    }
}

} // verus!
