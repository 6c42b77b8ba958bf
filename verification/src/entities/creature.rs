//! Creatures: mythological beings and monsters, their habitats and
//! abilities.

use vstd::prelude::*;
use crate::ids::{MythId, seq_has_id, remove_id};
use crate::metadata::{Metadata, Source};
use crate::names::CultureId;
use crate::text::{seq_has_view, insert_unique_string};

verus! {

/// Type of mythological creature.
#[derive(Debug, Clone, PartialEq)]
pub enum CreatureType {
    Dragon,
    Giant,
    Spirit,
    Undead,
    Shapeshifter,
    Hybrid,
    Guardian,
    Monster,
    Elemental,
    Fae,
    Unknown,
    Other(String),
}

/// A mythological creature or monster.
#[derive(Debug, Clone)]
pub struct Creature {
    /// Unique identifier.
    pub id: MythId,
    /// Primary name.
    pub name: String,
    /// Description of the creature.
    pub description: String,
    /// Cultural origin.
    pub culture: CultureId,
    /// Type of creature.
    pub creature_type: CreatureType,
    /// Habitats or dwelling places; each occurs at most once.
    pub habitat: Vec<String>,
    /// Special abilities or powers.
    pub abilities: Vec<String>,
    /// Identifiers of relationships this creature takes part in.
    pub relationships: Vec<MythId>,
    /// Provenance and bookkeeping.
    pub metadata: Metadata,
}

impl Creature {
    /// A new creature with a fresh identifier, fresh metadata and default
    /// attributes.
    pub fn new(name: &str, description: &str, culture: &str) -> (r: Creature)
        ensures
            r.name@ == name@,
            r.description@ == description@,
            r.culture@ == culture@,
            r.creature_type == CreatureType::Unknown,
            r.habitat@ == Seq::<String>::empty(),
            r.abilities@ == Seq::<String>::empty(),
            r.relationships@ == Seq::<MythId>::empty(),
            r.metadata.sources@ == Seq::<Source>::empty(),
            r.metadata.attributes@ == Seq::<(String, String)>::empty(),
    {
        Creature {
            id: MythId::new(),
            name: name.to_owned(),
            description: description.to_owned(),
            culture: CultureId::new(culture),
            creature_type: CreatureType::Unknown,
            habitat: Vec::new(),
            abilities: Vec::new(),
            relationships: Vec::new(),
            metadata: Metadata::new(),
        }
    }

    /// Add a habitat; one already present is not repeated.
    pub fn add_habitat(&mut self, habitat: &str)
        ensures
            (*final(self) == (Creature { habitat: final(self).habitat, ..(*old(self)) })),
            seq_has_view(old(self).habitat@, habitat@) ==> final(self).habitat@ == old(
                self,
            ).habitat@,
            !seq_has_view(old(self).habitat@, habitat@) ==> final(self).habitat@.len() == old(
                self,
            ).habitat@.len() + 1 && final(self).habitat@.subrange(
                0,
                old(self).habitat@.len() as int,
            ) == old(self).habitat@ && final(self).habitat@.last()@ == habitat@,
    {
        insert_unique_string(&mut self.habitat, habitat);
    }

    /// Append an ability.
    pub fn add_ability(&mut self, ability: &str)
        ensures
            (*final(self) == (Creature { abilities: final(self).abilities, ..(*old(self)) })),
            final(self).abilities@.len() == old(self).abilities@.len() + 1,
            final(self).abilities@.subrange(0, old(self).abilities@.len() as int) == old(
                self,
            ).abilities@,
            final(self).abilities@.last()@ == ability@,
    {
        self.abilities.push(ability.to_owned());
        proof {
            assert(final(self).abilities@.subrange(0, old(self).abilities@.len() as int) =~= old(
                self,
            ).abilities@);
        }
    }

    /// Set the creature type.
    pub fn set_creature_type(&mut self, creature_type: CreatureType)
        ensures
            (*final(self) == (Creature { creature_type, ..(*old(self)) })),
    {
        self.creature_type = creature_type;
    }

    /// Record that this creature takes part in a relationship.
    pub fn add_relationship(&mut self, relationship_id: MythId)
        ensures
            (*final(self) == (Creature {
                relationships: final(self).relationships,
                ..(*old(self))
            })),
            final(self).relationships@ == old(self).relationships@.push(relationship_id),
    {
        self.relationships.push(relationship_id);
    }

    /// Forget a relationship; true when it was recorded.
    pub fn remove_relationship(&mut self, relationship_id: &MythId) -> (r: bool)
        ensures
            (*final(self) == (Creature {
                relationships: final(self).relationships,
                ..(*old(self))
            })),
            final(self).relationships@ == old(self).relationships@.filter(
                |x: MythId| x != *relationship_id,
            ),
            r == seq_has_id(old(self).relationships@, *relationship_id),
    {
        remove_id(&mut self.relationships, relationship_id)
    }

    /// The cultural origin.
    pub fn culture(&self) -> (r: &CultureId)
        ensures
            *r == self.culture,
    {
        &self.culture
    }

    /// The creature type.
    pub fn creature_type(&self) -> (r: &CreatureType)
        ensures
            *r == self.creature_type,
    {
        &self.creature_type
    }

    /// The habitats.
    pub fn habitats(&self) -> (r: &Vec<String>)
        ensures
            r@ == self.habitat@,
    {
        &self.habitat
    }

    /// The abilities.
    pub fn abilities(&self) -> (r: &Vec<String>)
        ensures
            r@ == self.abilities@,
    {
        &self.abilities
    }
}

} // verus!
