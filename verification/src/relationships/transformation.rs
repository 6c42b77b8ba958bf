//! Transformation relationships: one entity becoming another, with a cause
//! and permanence flags; always one-directional by default, and curse and
//! blessing are each other's inverse.

use vstd::prelude::*;
use crate::ids::MythId;
use crate::metadata::{Metadata, Source, attr_lookup, attrs_get, attrs_set};
use crate::relationships::relationship::{
    Relationship, RelationshipBuilder, RelationshipType, Relatable, Invertible, Properties,
    clamp_strength,
};

verus! {

/// Type of transformation.
#[derive(Debug, Clone, PartialEq)]
pub enum TransformationType {
    Shapeshifting,
    Petrification,
    Apotheosis,
    Curse,
    Blessing,
    Reincarnation,
    Metamorphosis,
    Other(String),
}

impl Invertible for TransformationType {
    /// Curse and blessing undo each other; every other kind is its own
    /// inverse.
    open spec fn spec_inverse(&self) -> TransformationType {
        match self {
            TransformationType::Curse => TransformationType::Blessing,
            TransformationType::Blessing => TransformationType::Curse,
            _ => *self,
        }
    }

    /// Transformations typically run one way.
    open spec fn spec_typically_bidirectional(&self) -> bool {
        false
    }

    fn inverse(&self) -> (r: TransformationType) {
        match self {
            TransformationType::Shapeshifting => TransformationType::Shapeshifting,
            TransformationType::Petrification => TransformationType::Petrification,
            TransformationType::Apotheosis => TransformationType::Apotheosis,
            TransformationType::Curse => TransformationType::Blessing,
            TransformationType::Blessing => TransformationType::Curse,
            TransformationType::Reincarnation => TransformationType::Reincarnation,
            TransformationType::Metamorphosis => TransformationType::Metamorphosis,
            TransformationType::Other(s) => TransformationType::Other(s.clone()),
        }
    }

    fn is_typically_bidirectional(&self) -> (r: bool) {
        false
    }
}

/// How a property value parses as a flag: only the exact words count, and
/// anything else falls back to the given default.
pub open spec fn spec_parse_flag(v: Seq<char>, default: bool) -> bool {
    if v == "true"@ {
        true
    } else if v == "false"@ {
        false
    } else {
        default
    }
}

/// The text a flag reads back as.
pub open spec fn spec_flag_text(b: bool) -> Seq<char> {
    if b {
        "true"@
    } else {
        "false"@
    }
}

/// A transformation relationship between mythological entities.
#[derive(Debug, Clone)]
pub struct TransformationRelationship {
    /// The base relationship record.
    pub relationship: Relationship,
    /// Type of transformation.
    pub transformation_type: TransformationType,
    /// Cause of the transformation.
    pub cause: String,
    /// Whether the transformation is permanent.
    pub permanent: bool,
    /// Whether the transformation is reversible.
    pub reversible: bool,
    /// Additional properties for extensibility; lookup takes the first pair
    /// with a matching key.
    pub properties: Vec<(String, String)>,
}

impl TransformationRelationship {
    /// A new transformation: one-directional, permanent and irreversible
    /// until configured otherwise.
    pub fn new(
        name: &str,
        description: &str,
        source_id: MythId,
        target_id: MythId,
        transformation_type: TransformationType,
        cause: &str,
    ) -> (r: TransformationRelationship)
        ensures
            r.relationship.name@ == name@,
            r.relationship.description@ == description@,
            r.relationship.source_id == source_id,
            r.relationship.target_id == target_id,
            r.relationship.relationship_type == RelationshipType::Transformation,
            r.relationship.strength == 500,
            r.relationship.bidirectional == false,
            r.transformation_type == transformation_type,
            r.cause@ == cause@,
            r.permanent == true,
            r.reversible == false,
            r.properties@ == Seq::<(String, String)>::empty(),
            r.relationship.metadata.sources@ == Seq::<Source>::empty(),
            r.relationship.metadata.attributes@ == Seq::<(String, String)>::empty(),
    {
        let bidirectional = transformation_type.is_typically_bidirectional();
        let relationship = RelationshipBuilder::new(
            name,
            description,
            source_id,
            target_id,
            RelationshipType::Transformation,
        ).bidirectional(bidirectional).build();
        TransformationRelationship {
            relationship,
            transformation_type,
            cause: cause.to_owned(),
            permanent: true,
            reversible: false,
            properties: Vec::new(),
        }
    }

    /// The transformation type.
    pub fn transformation_type(&self) -> (r: &TransformationType)
        ensures
            *r == self.transformation_type,
    {
        &self.transformation_type
    }

    /// Set the transformation type.
    pub fn set_transformation_type(&mut self, transformation_type: TransformationType)
        ensures
            (*final(self) == (TransformationRelationship {
                transformation_type,
                ..(*old(self))
            })),
    {
        self.transformation_type = transformation_type;
    }

    /// The cause.
    pub fn cause(&self) -> (r: &str)
        ensures
            r@ == self.cause@,
    {
        self.cause.as_str()
    }

    /// Set the cause.
    pub fn set_cause(&mut self, cause: &str)
        ensures
            (*final(self) == (TransformationRelationship {
                cause: final(self).cause,
                ..(*old(self))
            })),
            final(self).cause@ == cause@,
    {
        self.cause = cause.to_owned();
    }

    /// Whether the transformation is permanent.
    pub fn is_permanent(&self) -> (r: bool)
        ensures
            r == self.permanent,
    {
        self.permanent
    }

    /// Set whether the transformation is permanent.
    pub fn set_permanent(&mut self, permanent: bool)
        ensures
            (*final(self) == (TransformationRelationship { permanent, ..(*old(self)) })),
    {
        self.permanent = permanent;
    }

    /// Whether the transformation is reversible.
    pub fn is_reversible(&self) -> (r: bool)
        ensures
            r == self.reversible,
    {
        self.reversible
    }

    /// Set whether the transformation is reversible.
    pub fn set_reversible(&mut self, reversible: bool)
        ensures
            (*final(self) == (TransformationRelationship { reversible, ..(*old(self)) })),
    {
        self.reversible = reversible;
    }

    /// Start configuring a transformation; directionality and the flags take
    /// the defaults until overridden.
    pub fn builder(
        name: &str,
        description: &str,
        source_id: MythId,
        target_id: MythId,
        transformation_type: TransformationType,
        cause: &str,
    ) -> (r: TransformationRelationshipBuilder)
        ensures
            r.name@ == name@,
            r.description@ == description@,
            r.source_id == source_id,
            r.target_id == target_id,
            r.transformation_type == transformation_type,
            r.cause@ == cause@,
            r.permanent == true,
            r.reversible == false,
            r.bidirectional == false,
            r.strength == 500,
            r.properties@ == Seq::<(String, String)>::empty(),
    {
        TransformationRelationshipBuilder {
            name: name.to_owned(),
            description: description.to_owned(),
            source_id,
            target_id,
            transformation_type,
            cause: cause.to_owned(),
            permanent: true,
            reversible: false,
            bidirectional: false,
            strength: 500,
            properties: Vec::new(),
        }
    }
}

/// Fluent configuration for a transformation relationship.
pub struct TransformationRelationshipBuilder {
    /// Name of the relationship.
    pub name: String,
    /// Description of the relationship.
    pub description: String,
    /// Source entity identifier.
    pub source_id: MythId,
    /// Target entity identifier.
    pub target_id: MythId,
    /// Type of transformation.
    pub transformation_type: TransformationType,
    /// Cause of the transformation.
    pub cause: String,
    /// Whether the transformation is permanent.
    pub permanent: bool,
    /// Whether the transformation is reversible.
    pub reversible: bool,
    /// Whether the relationship is bidirectional.
    pub bidirectional: bool,
    /// Strength, in thousandths of the unit interval; clamped when built.
    pub strength: i64,
    /// Additional properties.
    pub properties: Vec<(String, String)>,
}

impl TransformationRelationshipBuilder {
    /// Configure the strength.
    pub fn strength(self, strength: i64) -> (r: TransformationRelationshipBuilder)
        ensures
            r == (TransformationRelationshipBuilder { strength, ..self }),
    {
        let mut b = self;
        b.strength = strength;
        b
    }

    /// Configure the directionality.
    pub fn bidirectional(self, bidirectional: bool) -> (r: TransformationRelationshipBuilder)
        ensures
            r == (TransformationRelationshipBuilder { bidirectional, ..self }),
    {
        let mut b = self;
        b.bidirectional = bidirectional;
        b
    }

    /// Configure whether the transformation is permanent.
    pub fn permanent(self, permanent: bool) -> (r: TransformationRelationshipBuilder)
        ensures
            r == (TransformationRelationshipBuilder { permanent, ..self }),
    {
        let mut b = self;
        b.permanent = permanent;
        b
    }

    /// Configure whether the transformation is reversible.
    pub fn reversible(self, reversible: bool) -> (r: TransformationRelationshipBuilder)
        ensures
            r == (TransformationRelationshipBuilder { reversible, ..self }),
    {
        let mut b = self;
        b.reversible = reversible;
        b
    }

    /// Add a custom property.
    pub fn property(self, key: &str, value: &str) -> (r: TransformationRelationshipBuilder)
        ensures
            (r == (TransformationRelationshipBuilder { properties: r.properties, ..self })),
            attr_lookup(r.properties@, key@) == Some(value@),
            forall|k2: Seq<char>| k2 != key@ ==> attr_lookup(r.properties@, k2) == attr_lookup(
                self.properties@,
                k2,
            ),
    {
        let mut b = self;
        attrs_set(&mut b.properties, key, value);
        b
    }

    /// Finish, yielding the configured transformation relationship.
    pub fn build(self) -> (r: TransformationRelationship)
        ensures
            r.relationship.name@ == self.name@,
            r.relationship.description@ == self.description@,
            r.relationship.source_id == self.source_id,
            r.relationship.target_id == self.target_id,
            r.relationship.relationship_type == RelationshipType::Transformation,
            r.relationship.strength == clamp_strength(self.strength as int),
            r.relationship.bidirectional == self.bidirectional,
            r.transformation_type == self.transformation_type,
            r.cause@ == self.cause@,
            r.permanent == self.permanent,
            r.reversible == self.reversible,
            r.properties@ == self.properties@,
            r.relationship.metadata.sources@ == Seq::<Source>::empty(),
            r.relationship.metadata.attributes@ == Seq::<(String, String)>::empty(),
    {
        let relationship = RelationshipBuilder::new(
            self.name.as_str(),
            self.description.as_str(),
            self.source_id,
            self.target_id,
            RelationshipType::Transformation,
        ).bidirectional(self.bidirectional).strength(self.strength).build();
        TransformationRelationship {
            relationship,
            transformation_type: self.transformation_type,
            cause: self.cause,
            permanent: self.permanent,
            reversible: self.reversible,
            properties: self.properties,
        }
    }
}

impl Relatable for TransformationRelationship {
    open spec fn spec_base(&self) -> Relationship {
        self.relationship
    }

    open spec fn extras_unchanged(&self, other: &TransformationRelationship) -> bool {
        self.transformation_type == other.transformation_type && self.cause@ == other.cause@
            && self.permanent == other.permanent && self.reversible == other.reversible
            && self.properties@ == other.properties@
    }

    fn base(&self) -> (r: &Relationship) {
        &self.relationship
    }

    fn id(&self) -> (r: &MythId) {
        &self.relationship.id
    }

    fn name(&self) -> (r: &str) {
        self.relationship.name.as_str()
    }

    fn description(&self) -> (r: &str) {
        self.relationship.description.as_str()
    }

    fn source_id(&self) -> (r: &MythId) {
        &self.relationship.source_id
    }

    fn target_id(&self) -> (r: &MythId) {
        &self.relationship.target_id
    }

    fn relationship_type(&self) -> (r: &RelationshipType) {
        &self.relationship.relationship_type
    }

    fn strength(&self) -> (r: u32) {
        self.relationship.strength
    }

    fn set_strength(&mut self, strength: i64) {
        self.relationship.set_strength(strength);
    }

    fn is_bidirectional(&self) -> (r: bool) {
        self.relationship.bidirectional
    }

    fn set_bidirectional(&mut self, bidirectional: bool) {
        self.relationship.set_bidirectional(bidirectional);
    }

    fn metadata(&self) -> (r: &Metadata) {
        &self.relationship.metadata
    }
}

impl Properties for TransformationRelationship {
    /// The cause and the two flags answer for their names; every other
    /// property lives in the generic bag.
    open spec fn spec_property(&self, name: Seq<char>) -> Option<Seq<char>> {
        if name == "cause"@ {
            Some(self.cause@)
        } else if name == "permanent"@ {
            Some(spec_flag_text(self.permanent))
        } else if name == "reversible"@ {
            Some(spec_flag_text(self.reversible))
        } else {
            attr_lookup(self.properties@, name)
        }
    }

    /// A set property reads back as the value written, except that the flags
    /// read back as the flag text the value parsed to.
    open spec fn spec_set_result(name: Seq<char>, value: Seq<char>) -> Option<Seq<char>> {
        if name == "cause"@ {
            Some(value)
        } else if name == "permanent"@ {
            Some(spec_flag_text(spec_parse_flag(value, true)))
        } else if name == "reversible"@ {
            Some(spec_flag_text(spec_parse_flag(value, false)))
        } else {
            Some(value)
        }
    }

    open spec fn core_unchanged(&self, other: &TransformationRelationship) -> bool {
        self.relationship == other.relationship && self.transformation_type
            == other.transformation_type
    }

    fn get_property(&self, name: &str) -> (r: Option<&str>) {
        proof {
            reveal_strlit("cause");
            reveal_strlit("permanent");
            reveal_strlit("reversible");
        }
        let name_string = name.to_owned();
        if name_string == "cause".to_owned() {
            Some(self.cause.as_str())
        } else if name_string == "permanent".to_owned() {
            Some(if self.permanent { "true" } else { "false" })
        } else if name_string == "reversible".to_owned() {
            Some(if self.reversible { "true" } else { "false" })
        } else {
            match attrs_get(&self.properties, name) {
                Some(v) => Some(v.as_str()),
                None => None,
            }
        }
    }

    fn set_property(&mut self, name: &str, value: &str) {
        proof {
            reveal_strlit("cause");
            reveal_strlit("permanent");
            reveal_strlit("reversible");
        }
        let name_string = name.to_owned();
        let value_string = value.to_owned();
        if name_string == "cause".to_owned() {
            self.cause = value.to_owned();
        } else if name_string == "permanent".to_owned() {
            self.permanent = if value_string == "true".to_owned() {
                true
            } else if value_string == "false".to_owned() {
                false
            } else {
                true
            };
        } else if name_string == "reversible".to_owned() {
            self.reversible = if value_string == "true".to_owned() {
                true
            } else if value_string == "false".to_owned() {
                false
            } else {
                false
            };
        } else {
            attrs_set(&mut self.properties, name, value);
        }
    }
}

} // verus!
