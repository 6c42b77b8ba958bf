//! Mythological eras: ages in a tradition's chronology.

use vstd::prelude::*;
use crate::ids::{MythId, seq_has_id, remove_id};
use crate::metadata::{Metadata, Source};
use crate::names::CultureId;

verus! {

/// A mythological era or age.
#[derive(Debug, Clone)]
pub struct MythologicalEra {
    /// Unique identifier.
    pub id: MythId,
    /// Name of the era.
    pub name: String,
    /// Description of the era.
    pub description: String,
    /// Cultural origin.
    pub culture: CultureId,
    /// Order in the sequence of eras, if known.
    pub sequence_order: Option<u32>,
    /// Defining characteristics.
    pub characteristics: Vec<String>,
    /// How this era ended, if known.
    pub end_event: Option<String>,
    /// Identifiers of relationships this era takes part in.
    pub relationships: Vec<MythId>,
    /// Provenance and bookkeeping.
    pub metadata: Metadata,
}

impl MythologicalEra {
    /// A new era with a fresh identifier, fresh metadata and default
    /// attributes.
    pub fn new(name: &str, description: &str, culture: &str) -> (r: MythologicalEra)
        ensures
            r.name@ == name@,
            r.description@ == description@,
            r.culture@ == culture@,
            r.sequence_order is None,
            r.characteristics@ == Seq::<String>::empty(),
            r.end_event is None,
            r.relationships@ == Seq::<MythId>::empty(),
            r.metadata.sources@ == Seq::<Source>::empty(),
            r.metadata.attributes@ == Seq::<(String, String)>::empty(),
    {
        MythologicalEra {
            id: MythId::new(),
            name: name.to_owned(),
            description: description.to_owned(),
            culture: CultureId::new(culture),
            sequence_order: None,
            characteristics: Vec::new(),
            end_event: None,
            relationships: Vec::new(),
            metadata: Metadata::new(),
        }
    }

    /// Append a characteristic.
    pub fn add_characteristic(&mut self, characteristic: &str)
        ensures
            (*final(self) == (MythologicalEra {
                characteristics: final(self).characteristics,
                ..(*old(self))
            })),
            final(self).characteristics@.len() == old(self).characteristics@.len() + 1,
            final(self).characteristics@.subrange(0, old(self).characteristics@.len() as int)
                == old(self).characteristics@,
            final(self).characteristics@.last()@ == characteristic@,
    {
        self.characteristics.push(characteristic.to_owned());
        proof {
            assert(final(self).characteristics@.subrange(
                0,
                old(self).characteristics@.len() as int,
            ) =~= old(self).characteristics@);
        }
    }

    /// Set the sequence order.
    pub fn set_sequence_order(&mut self, order: u32)
        ensures
            (*final(self) == (MythologicalEra {
                sequence_order: Some(order),
                ..(*old(self))
            })),
    {
        self.sequence_order = Some(order);
    }

    /// Set the end event.
    pub fn set_end_event(&mut self, event: &str)
        ensures
            (*final(self) == (MythologicalEra { end_event: final(self).end_event, ..(*old(self)) })),
            final(self).end_event matches Some(e) && e@ == event@,
    {
        self.end_event = Some(event.to_owned());
    }

    /// Record that this era takes part in a relationship.
    pub fn add_relationship(&mut self, relationship_id: MythId)
        ensures
            (*final(self) == (MythologicalEra {
                relationships: final(self).relationships,
                ..(*old(self))
            })),
            final(self).relationships@ == old(self).relationships@.push(relationship_id),
    {
        self.relationships.push(relationship_id);
    }

    /// Forget a relationship; true when it was recorded.
    pub fn remove_relationship(&mut self, relationship_id: &MythId) -> (r: bool)
        ensures
            (*final(self) == (MythologicalEra {
                relationships: final(self).relationships,
                ..(*old(self))
            })),
            final(self).relationships@ == old(self).relationships@.filter(
                |x: MythId| x != *relationship_id,
            ),
            r == seq_has_id(old(self).relationships@, *relationship_id),
    {
        remove_id(&mut self.relationships, relationship_id)
    }

    /// The cultural origin.
    pub fn culture(&self) -> (r: &CultureId)
        ensures
            *r == self.culture,
    {
        &self.culture
    }

    /// The sequence order, if set.
    pub fn sequence_order(&self) -> (r: Option<u32>)
        ensures
            r == self.sequence_order,
    {
        self.sequence_order
    }

    /// The characteristics.
    pub fn characteristics(&self) -> (r: &Vec<String>)
        ensures
            r@ == self.characteristics@,
    {
        &self.characteristics
    }

    /// The end event, if set.
    pub fn end_event(&self) -> (r: Option<&String>)
        ensures
            match r {
                Some(e) => self.end_event matches Some(f) && f == *e,
                None => self.end_event is None,
            },
    {
        self.end_event.as_ref()
    }
}

} // verus!
