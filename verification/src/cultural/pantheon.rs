//! Pantheons: coherent groups of deities within a cultural tradition.

use vstd::prelude::*;
use crate::ids::{MythId, seq_has_id, insert_unique_id, remove_id};
use crate::metadata::{Metadata, Source};
use crate::names::CultureId;

verus! {

/// A pantheon of deities.
#[derive(Debug, Clone)]
pub struct Pantheon {
    /// Unique identifier.
    pub id: MythId,
    /// Name of the pantheon.
    pub name: String,
    /// Description of the pantheon.
    pub description: String,
    /// Cultural origin.
    pub culture: CultureId,
    /// Primary deities; each occurs at most once.
    pub primary_deities: Vec<MythId>,
    /// Secondary deities; each occurs at most once.
    pub secondary_deities: Vec<MythId>,
    /// Cosmological structure, if known.
    pub cosmology: Option<String>,
    /// Identifiers of relationships this pantheon takes part in.
    pub relationships: Vec<MythId>,
    /// Provenance and bookkeeping.
    pub metadata: Metadata,
}

impl Pantheon {
    /// A new pantheon with a fresh identifier, fresh metadata and default
    /// attributes.
    pub fn new(name: &str, description: &str, culture: &str) -> (r: Pantheon)
        ensures
            r.name@ == name@,
            r.description@ == description@,
            r.culture@ == culture@,
            r.primary_deities@ == Seq::<MythId>::empty(),
            r.secondary_deities@ == Seq::<MythId>::empty(),
            r.cosmology is None,
            r.relationships@ == Seq::<MythId>::empty(),
            r.metadata.sources@ == Seq::<Source>::empty(),
            r.metadata.attributes@ == Seq::<(String, String)>::empty(),
    {
        Pantheon {
            id: MythId::new(),
            name: name.to_owned(),
            description: description.to_owned(),
            culture: CultureId::new(culture),
            primary_deities: Vec::new(),
            secondary_deities: Vec::new(),
            cosmology: None,
            relationships: Vec::new(),
            metadata: Metadata::new(),
        }
    }

    /// Add a primary deity; one already present is not repeated.
    pub fn add_primary_deity(&mut self, deity_id: MythId)
        ensures
            (*final(self) == (Pantheon {
                primary_deities: final(self).primary_deities,
                ..(*old(self))
            })),
            seq_has_id(old(self).primary_deities@, deity_id) ==> final(self).primary_deities@
                == old(self).primary_deities@,
            !seq_has_id(old(self).primary_deities@, deity_id) ==> final(self).primary_deities@
                == old(self).primary_deities@.push(deity_id),
    {
        insert_unique_id(&mut self.primary_deities, deity_id);
    }

    /// Add a secondary deity; one already present is not repeated.
    pub fn add_secondary_deity(&mut self, deity_id: MythId)
        ensures
            (*final(self) == (Pantheon {
                secondary_deities: final(self).secondary_deities,
                ..(*old(self))
            })),
            seq_has_id(old(self).secondary_deities@, deity_id) ==> final(self).secondary_deities@
                == old(self).secondary_deities@,
            !seq_has_id(old(self).secondary_deities@, deity_id) ==> final(self).secondary_deities@
                == old(self).secondary_deities@.push(deity_id),
    {
        insert_unique_id(&mut self.secondary_deities, deity_id);
    }

    /// Set the cosmology.
    pub fn set_cosmology(&mut self, cosmology: &str)
        ensures
            (*final(self) == (Pantheon { cosmology: final(self).cosmology, ..(*old(self)) })),
            final(self).cosmology matches Some(c) && c@ == cosmology@,
    {
        self.cosmology = Some(cosmology.to_owned());
    }

    /// Whether a deity is part of this pantheon, primary or secondary.
    pub fn contains_deity(&self, deity_id: &MythId) -> (r: bool)
        ensures
            r == (seq_has_id(self.primary_deities@, *deity_id) || seq_has_id(
                self.secondary_deities@,
                *deity_id,
            )),
    {
        let n1 = self.primary_deities.len();
        let mut i: usize = 0;
        while i < n1
            invariant
                0 <= i <= n1,
                n1 == self.primary_deities.len(),
                forall|j: int| 0 <= j < i ==> self.primary_deities@[j] != *deity_id,
            decreases n1 - i,
        {
            if self.primary_deities[i] == *deity_id {
                return true;
            }
            i += 1;
        }
        let n2 = self.secondary_deities.len();
        let mut k: usize = 0;
        while k < n2
            invariant
                0 <= k <= n2,
                n2 == self.secondary_deities.len(),
                forall|j: int| 0 <= j < k ==> self.secondary_deities@[j] != *deity_id,
            decreases n2 - k,
        {
            if self.secondary_deities[k] == *deity_id {
                return true;
            }
            k += 1;
        }
        false
    }

    /// Record that this pantheon takes part in a relationship.
    pub fn add_relationship(&mut self, relationship_id: MythId)
        ensures
            (*final(self) == (Pantheon {
                relationships: final(self).relationships,
                ..(*old(self))
            })),
            final(self).relationships@ == old(self).relationships@.push(relationship_id),
    {
        self.relationships.push(relationship_id);
    }

    /// Forget a relationship; true when it was recorded.
    pub fn remove_relationship(&mut self, relationship_id: &MythId) -> (r: bool)
        ensures
            (*final(self) == (Pantheon {
                relationships: final(self).relationships,
                ..(*old(self))
            })),
            final(self).relationships@ == old(self).relationships@.filter(
                |x: MythId| x != *relationship_id,
            ),
            r == seq_has_id(old(self).relationships@, *relationship_id),
    {
        remove_id(&mut self.relationships, relationship_id)
    }

    /// The cultural origin.
    pub fn culture(&self) -> (r: &CultureId)
        ensures
            *r == self.culture,
    {
        &self.culture
    }

    /// The primary deities.
    pub fn primary_deities(&self) -> (r: &Vec<MythId>)
        ensures
            r@ == self.primary_deities@,
    {
        &self.primary_deities
    }

    /// The secondary deities.
    pub fn secondary_deities(&self) -> (r: &Vec<MythId>)
        ensures
            r@ == self.secondary_deities@,
    {
        &self.secondary_deities
    }

    /// The cosmology, if set.
    pub fn cosmology(&self) -> (r: Option<&String>)
        ensures
            match r {
                Some(c) => self.cosmology matches Some(d) && d == *c,
                None => self.cosmology is None,
            },
    {
        self.cosmology.as_ref()
    }
}

} // verus!
