//! Mythological regions: geographic areas of mythological significance.

use vstd::prelude::*;
use crate::ids::{MythId, seq_has_id, remove_id};
use crate::metadata::{Metadata, Source};
use crate::text::{seq_has_view, insert_unique_string};

verus! {

/// A geographic region in mythology.
#[derive(Debug, Clone)]
pub struct MythologicalRegion {
    /// Unique identifier.
    pub id: MythId,
    /// Name of the region.
    pub name: String,
    /// Description of the region.
    pub description: String,
    /// Cultural associations; each occurs at most once.
    pub cultures: Vec<String>,
    /// Geographic features.
    pub features: Vec<String>,
    /// Modern-day equivalent locations; each occurs at most once.
    pub modern_locations: Vec<String>,
    /// Significance in mythology.
    pub significance: String,
    /// Identifiers of relationships this region takes part in.
    pub relationships: Vec<MythId>,
    /// Provenance and bookkeeping.
    pub metadata: Metadata,
}

impl MythologicalRegion {
    /// A new region with a fresh identifier, fresh metadata and default
    /// attributes.
    pub fn new(name: &str, description: &str, significance: &str) -> (r: MythologicalRegion)
        ensures
            r.name@ == name@,
            r.description@ == description@,
            r.significance@ == significance@,
            r.cultures@ == Seq::<String>::empty(),
            r.features@ == Seq::<String>::empty(),
            r.modern_locations@ == Seq::<String>::empty(),
            r.relationships@ == Seq::<MythId>::empty(),
            r.metadata.sources@ == Seq::<Source>::empty(),
            r.metadata.attributes@ == Seq::<(String, String)>::empty(),
    {
        MythologicalRegion {
            id: MythId::new(),
            name: name.to_owned(),
            description: description.to_owned(),
            cultures: Vec::new(),
            features: Vec::new(),
            modern_locations: Vec::new(),
            significance: significance.to_owned(),
            relationships: Vec::new(),
            metadata: Metadata::new(),
        }
    }

    /// Add a cultural association; one already present is not repeated.
    pub fn add_culture(&mut self, culture: &str)
        ensures
            (*final(self) == (MythologicalRegion {
                cultures: final(self).cultures,
                ..(*old(self))
            })),
            seq_has_view(old(self).cultures@, culture@) ==> final(self).cultures@ == old(
                self,
            ).cultures@,
            !seq_has_view(old(self).cultures@, culture@) ==> final(self).cultures@.len() == old(
                self,
            ).cultures@.len() + 1 && final(self).cultures@.subrange(
                0,
                old(self).cultures@.len() as int,
            ) == old(self).cultures@ && final(self).cultures@.last()@ == culture@,
    {
        insert_unique_string(&mut self.cultures, culture);
    }

    /// Append a geographic feature.
    pub fn add_feature(&mut self, feature: &str)
        ensures
            (*final(self) == (MythologicalRegion {
                features: final(self).features,
                ..(*old(self))
            })),
            final(self).features@.len() == old(self).features@.len() + 1,
            final(self).features@.subrange(0, old(self).features@.len() as int) == old(
                self,
            ).features@,
            final(self).features@.last()@ == feature@,
    {
        self.features.push(feature.to_owned());
        proof {
            assert(final(self).features@.subrange(0, old(self).features@.len() as int) =~= old(
                self,
            ).features@);
        }
    }

    /// Add a modern location; one already present is not repeated.
    pub fn add_modern_location(&mut self, location: &str)
        ensures
            (*final(self) == (MythologicalRegion {
                modern_locations: final(self).modern_locations,
                ..(*old(self))
            })),
            seq_has_view(old(self).modern_locations@, location@) ==> final(self).modern_locations@
                == old(self).modern_locations@,
            !seq_has_view(old(self).modern_locations@, location@) ==> final(self).modern_locations@.len() == old(self).modern_locations@.len() + 1 && final(self).modern_locations@.subrange(0, old(self).modern_locations@.len() as int) == old(
                self,
            ).modern_locations@ && final(self).modern_locations@.last()@ == location@,
    {
        insert_unique_string(&mut self.modern_locations, location);
    }

    /// Record that this region takes part in a relationship.
    pub fn add_relationship(&mut self, relationship_id: MythId)
        ensures
            (*final(self) == (MythologicalRegion {
                relationships: final(self).relationships,
                ..(*old(self))
            })),
            final(self).relationships@ == old(self).relationships@.push(relationship_id),
    {
        self.relationships.push(relationship_id);
    }

    /// Forget a relationship; true when it was recorded.
    pub fn remove_relationship(&mut self, relationship_id: &MythId) -> (r: bool)
        ensures
            (*final(self) == (MythologicalRegion {
                relationships: final(self).relationships,
                ..(*old(self))
            })),
            final(self).relationships@ == old(self).relationships@.filter(
                |x: MythId| x != *relationship_id,
            ),
            r == seq_has_id(old(self).relationships@, *relationship_id),
    {
        remove_id(&mut self.relationships, relationship_id)
    }

    /// The cultural associations.
    pub fn cultures(&self) -> (r: &Vec<String>)
        ensures
            r@ == self.cultures@,
    {
        &self.cultures
    }

    /// The geographic features.
    pub fn features(&self) -> (r: &Vec<String>)
        ensures
            r@ == self.features@,
    {
        &self.features
    }

    /// The modern locations.
    pub fn modern_locations(&self) -> (r: &Vec<String>)
        ensures
            r@ == self.modern_locations@,
    {
        &self.modern_locations
    }

    /// The significance in mythology.
    pub fn significance(&self) -> (r: &str)
        ensures
            r@ == self.significance@,
    {
        self.significance.as_str()
    }
}

} // verus!
