//! Locations: mythical places and realms, their characteristics and ways of
//! access.

use vstd::prelude::*;
use crate::ids::{MythId, seq_has_id, remove_id};
use crate::metadata::{Metadata, Source};
use crate::names::CultureId;

verus! {

/// Type of mythological location.
#[derive(Debug, Clone, PartialEq)]
pub enum LocationType {
    Afterlife,
    Heaven,
    Underworld,
    Mountain,
    Forest,
    Sea,
    Island,
    City,
    Temple,
    Cosmic,
    Liminal,
    Unknown,
    Other(String),
}

/// A mythological location or realm.
#[derive(Debug, Clone)]
pub struct Location {
    /// Unique identifier.
    pub id: MythId,
    /// Primary name.
    pub name: String,
    /// Description of the location.
    pub description: String,
    /// Cultural origin.
    pub culture: CultureId,
    /// Type of location.
    pub location_type: LocationType,
    /// Physical or metaphysical characteristics.
    pub characteristics: Vec<String>,
    /// How the location can be reached.
    pub accessibility: Vec<String>,
    /// Identifiers of relationships this location takes part in.
    pub relationships: Vec<MythId>,
    /// Provenance and bookkeeping.
    pub metadata: Metadata,
}

impl Location {
    /// A new location with a fresh identifier, fresh metadata and default
    /// attributes.
    pub fn new(name: &str, description: &str, culture: &str) -> (r: Location)
        ensures
            r.name@ == name@,
            r.description@ == description@,
            r.culture@ == culture@,
            r.location_type == LocationType::Unknown,
            r.characteristics@ == Seq::<String>::empty(),
            r.accessibility@ == Seq::<String>::empty(),
            r.relationships@ == Seq::<MythId>::empty(),
            r.metadata.sources@ == Seq::<Source>::empty(),
            r.metadata.attributes@ == Seq::<(String, String)>::empty(),
    {
        Location {
            id: MythId::new(),
            name: name.to_owned(),
            description: description.to_owned(),
            culture: CultureId::new(culture),
            location_type: LocationType::Unknown,
            characteristics: Vec::new(),
            accessibility: Vec::new(),
            relationships: Vec::new(),
            metadata: Metadata::new(),
        }
    }

    /// Append a characteristic.
    pub fn add_characteristic(&mut self, characteristic: &str)
        ensures
            (*final(self) == (Location {
                characteristics: final(self).characteristics,
                ..(*old(self))
            })),
            final(self).characteristics@.len() == old(self).characteristics@.len() + 1,
            final(self).characteristics@.subrange(0, old(self).characteristics@.len() as int)
                == old(self).characteristics@,
            final(self).characteristics@.last()@ == characteristic@,
    {
        self.characteristics.push(characteristic.to_owned());
        proof {
            assert(final(self).characteristics@.subrange(
                0,
                old(self).characteristics@.len() as int,
            ) =~= old(self).characteristics@);
        }
    }

    /// Append a way the location can be reached.
    pub fn add_accessibility(&mut self, access: &str)
        ensures
            (*final(self) == (Location {
                accessibility: final(self).accessibility,
                ..(*old(self))
            })),
            final(self).accessibility@.len() == old(self).accessibility@.len() + 1,
            final(self).accessibility@.subrange(0, old(self).accessibility@.len() as int) == old(
                self,
            ).accessibility@,
            final(self).accessibility@.last()@ == access@,
    {
        self.accessibility.push(access.to_owned());
        proof {
            assert(final(self).accessibility@.subrange(0, old(self).accessibility@.len() as int)
                =~= old(self).accessibility@);
        }
    }

    /// Set the location type.
    pub fn set_location_type(&mut self, location_type: LocationType)
        ensures
            (*final(self) == (Location { location_type, ..(*old(self)) })),
    {
        self.location_type = location_type;
    }

    /// Record that this location takes part in a relationship.
    pub fn add_relationship(&mut self, relationship_id: MythId)
        ensures
            (*final(self) == (Location {
                relationships: final(self).relationships,
                ..(*old(self))
            })),
            final(self).relationships@ == old(self).relationships@.push(relationship_id),
    {
        self.relationships.push(relationship_id);
    }

    /// Forget a relationship; true when it was recorded.
    pub fn remove_relationship(&mut self, relationship_id: &MythId) -> (r: bool)
        ensures
            (*final(self) == (Location {
                relationships: final(self).relationships,
                ..(*old(self))
            })),
            final(self).relationships@ == old(self).relationships@.filter(
                |x: MythId| x != *relationship_id,
            ),
            r == seq_has_id(old(self).relationships@, *relationship_id),
    {
        remove_id(&mut self.relationships, relationship_id)
    }

    /// The cultural origin.
    pub fn culture(&self) -> (r: &CultureId)
        ensures
            *r == self.culture,
    {
        &self.culture
    }

    /// The location type.
    pub fn location_type(&self) -> (r: &LocationType)
        ensures
            *r == self.location_type,
    {
        &self.location_type
    }

    /// The characteristics.
    pub fn characteristics(&self) -> (r: &Vec<String>)
        ensures
            r@ == self.characteristics@,
    {
        &self.characteristics
    }

    /// The ways the location can be reached.
    pub fn accessibility(&self) -> (r: &Vec<String>)
        ensures
            r@ == self.accessibility@,
    {
        &self.accessibility
    }
}

} // verus!
