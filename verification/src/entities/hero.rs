//! Heroes: mortal, semi-divine or divine protagonists and their
//! achievements.

use vstd::prelude::*;
use crate::ids::{MythId, seq_has_id, remove_id};
use crate::metadata::{Metadata, Source};
use crate::names::CultureId;

verus! {

/// Origin of a hero.
#[derive(Debug, Clone, PartialEq)]
pub enum HeroOrigin {
    /// Fully divine origin.
    Divine,
    /// Child of a deity and a mortal.
    Demigod,
    /// Mortal with divine blessing.
    BlessedMortal,
    /// Fully mortal.
    Mortal,
    /// Transformed into hero status.
    Transformed,
    Unknown,
    Other(String),
}

/// A mythological hero or protagonist.
#[derive(Debug, Clone)]
pub struct Hero {
    /// Unique identifier.
    pub id: MythId,
    /// Primary name.
    pub name: String,
    /// Description of the hero.
    pub description: String,
    /// Cultural origin.
    pub culture: CultureId,
    /// Whether the hero is divine, semi-divine or mortal.
    pub origin: HeroOrigin,
    /// Notable achievements or quests.
    pub achievements: Vec<String>,
    /// Identifiers of relationships this hero takes part in.
    pub relationships: Vec<MythId>,
    /// Provenance and bookkeeping.
    pub metadata: Metadata,
}

impl Hero {
    /// A new hero with a fresh identifier, fresh metadata and default
    /// attributes.
    pub fn new(name: &str, description: &str, culture: &str) -> (r: Hero)
        ensures
            r.name@ == name@,
            r.description@ == description@,
            r.culture@ == culture@,
            r.origin == HeroOrigin::Unknown,
            r.achievements@ == Seq::<String>::empty(),
            r.relationships@ == Seq::<MythId>::empty(),
            r.metadata.sources@ == Seq::<Source>::empty(),
            r.metadata.attributes@ == Seq::<(String, String)>::empty(),
    {
        Hero {
            id: MythId::new(),
            name: name.to_owned(),
            description: description.to_owned(),
            culture: CultureId::new(culture),
            origin: HeroOrigin::Unknown,
            achievements: Vec::new(),
            relationships: Vec::new(),
            metadata: Metadata::new(),
        }
    }

    /// Append an achievement.
    pub fn add_achievement(&mut self, achievement: &str)
        ensures
            (*final(self) == (Hero { achievements: final(self).achievements, ..(*old(self)) })),
            final(self).achievements@.len() == old(self).achievements@.len() + 1,
            final(self).achievements@.subrange(0, old(self).achievements@.len() as int) == old(
                self,
            ).achievements@,
            final(self).achievements@.last()@ == achievement@,
    {
        self.achievements.push(achievement.to_owned());
        proof {
            assert(final(self).achievements@.subrange(0, old(self).achievements@.len() as int)
                =~= old(self).achievements@);
        }
    }

    /// Set the origin.
    pub fn set_origin(&mut self, origin: HeroOrigin)
        ensures
            (*final(self) == (Hero { origin, ..(*old(self)) })),
    {
        self.origin = origin;
    }

    /// Record that this hero takes part in a relationship.
    pub fn add_relationship(&mut self, relationship_id: MythId)
        ensures
            (*final(self) == (Hero { relationships: final(self).relationships, ..(*old(self)) })),
            final(self).relationships@ == old(self).relationships@.push(relationship_id),
    {
        self.relationships.push(relationship_id);
    }

    /// Forget a relationship; true when it was recorded.
    pub fn remove_relationship(&mut self, relationship_id: &MythId) -> (r: bool)
        ensures
            (*final(self) == (Hero { relationships: final(self).relationships, ..(*old(self)) })),
            final(self).relationships@ == old(self).relationships@.filter(
                |x: MythId| x != *relationship_id,
            ),
            r == seq_has_id(old(self).relationships@, *relationship_id),
    {
        remove_id(&mut self.relationships, relationship_id)
    }

    /// The cultural origin.
    pub fn culture(&self) -> (r: &CultureId)
        ensures
            *r == self.culture,
    {
        &self.culture
    }

    /// The hero's origin.
    pub fn origin(&self) -> (r: &HeroOrigin)
        ensures
            *r == self.origin,
    {
        &self.origin
    }

    /// The achievements.
    pub fn achievements(&self) -> (r: &Vec<String>)
        ensures
            r@ == self.achievements@,
    {
        &self.achievements
    }
}

} // verus!
