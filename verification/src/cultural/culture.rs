//! Cultures: the traditions within which mythological entities exist.

use vstd::prelude::*;
use crate::ids::{MythId, seq_has_id, remove_id};
use crate::metadata::{Metadata, Source};
use crate::text::{seq_has_view, insert_unique_string};

verus! {

/// A historical time period.
#[derive(Debug, Clone, PartialEq)]
pub struct TimePeriod {
    /// Name of the time period.
    pub name: String,
    /// Approximate start year; negative for years before the common era.
    pub start_year: Option<i32>,
    /// Approximate end year; negative for years before the common era.
    pub end_year: Option<i32>,
    /// Description of the time period.
    pub description: Option<String>,
}

/// A cultural context for mythological entities.
#[derive(Debug, Clone)]
pub struct Culture {
    /// Unique identifier.
    pub id: MythId,
    /// Name of the culture.
    pub name: String,
    /// Description of the culture.
    pub description: String,
    /// Geographic regions associated with this culture; each occurs at most
    /// once.
    pub regions: Vec<String>,
    /// Historical time periods.
    pub time_periods: Vec<TimePeriod>,
    /// Major influences on this culture.
    pub influences: Vec<String>,
    /// Languages associated with this culture; each occurs at most once.
    pub languages: Vec<String>,
    /// Identifiers of relationships this culture takes part in.
    pub relationships: Vec<MythId>,
    /// Provenance and bookkeeping.
    pub metadata: Metadata,
}

impl Culture {
    /// A new culture with a fresh identifier, fresh metadata and default
    /// attributes.
    pub fn new(name: &str, description: &str) -> (r: Culture)
        ensures
            r.name@ == name@,
            r.description@ == description@,
            r.regions@ == Seq::<String>::empty(),
            r.time_periods@ == Seq::<TimePeriod>::empty(),
            r.influences@ == Seq::<String>::empty(),
            r.languages@ == Seq::<String>::empty(),
            r.relationships@ == Seq::<MythId>::empty(),
            r.metadata.sources@ == Seq::<Source>::empty(),
            r.metadata.attributes@ == Seq::<(String, String)>::empty(),
    {
        Culture {
            id: MythId::new(),
            name: name.to_owned(),
            description: description.to_owned(),
            regions: Vec::new(),
            time_periods: Vec::new(),
            influences: Vec::new(),
            languages: Vec::new(),
            relationships: Vec::new(),
            metadata: Metadata::new(),
        }
    }

    /// Add a region; one already present is not repeated.
    pub fn add_region(&mut self, region: &str)
        ensures
            (*final(self) == (Culture { regions: final(self).regions, ..(*old(self)) })),
            seq_has_view(old(self).regions@, region@) ==> final(self).regions@ == old(
                self,
            ).regions@,
            !seq_has_view(old(self).regions@, region@) ==> final(self).regions@.len() == old(
                self,
            ).regions@.len() + 1 && final(self).regions@.subrange(
                0,
                old(self).regions@.len() as int,
            ) == old(self).regions@ && final(self).regions@.last()@ == region@,
    {
        insert_unique_string(&mut self.regions, region);
    }

    /// Append a time period.
    pub fn add_time_period(&mut self, time_period: TimePeriod)
        ensures
            (*final(self) == (Culture { time_periods: final(self).time_periods, ..(*old(self)) })),
            final(self).time_periods@ == old(self).time_periods@.push(time_period),
    {
        self.time_periods.push(time_period);
    }

    /// Append an influence.
    pub fn add_influence(&mut self, influence: &str)
        ensures
            (*final(self) == (Culture { influences: final(self).influences, ..(*old(self)) })),
            final(self).influences@.len() == old(self).influences@.len() + 1,
            final(self).influences@.subrange(0, old(self).influences@.len() as int) == old(
                self,
            ).influences@,
            final(self).influences@.last()@ == influence@,
    {
        self.influences.push(influence.to_owned());
        proof {
            assert(final(self).influences@.subrange(0, old(self).influences@.len() as int) =~= old(
                self,
            ).influences@);
        }
    }

    /// Add a language; one already present is not repeated.
    pub fn add_language(&mut self, language: &str)
        ensures
            (*final(self) == (Culture { languages: final(self).languages, ..(*old(self)) })),
            seq_has_view(old(self).languages@, language@) ==> final(self).languages@ == old(
                self,
            ).languages@,
            !seq_has_view(old(self).languages@, language@) ==> final(self).languages@.len() == old(
                self,
            ).languages@.len() + 1 && final(self).languages@.subrange(
                0,
                old(self).languages@.len() as int,
            ) == old(self).languages@ && final(self).languages@.last()@ == language@,
    {
        insert_unique_string(&mut self.languages, language);
    }

    /// Record that this culture takes part in a relationship.
    pub fn add_relationship(&mut self, relationship_id: MythId)
        ensures
            (*final(self) == (Culture {
                relationships: final(self).relationships,
                ..(*old(self))
            })),
            final(self).relationships@ == old(self).relationships@.push(relationship_id),
    {
        self.relationships.push(relationship_id);
    }

    /// Forget a relationship; true when it was recorded.
    pub fn remove_relationship(&mut self, relationship_id: &MythId) -> (r: bool)
        ensures
            (*final(self) == (Culture {
                relationships: final(self).relationships,
                ..(*old(self))
            })),
            final(self).relationships@ == old(self).relationships@.filter(
                |x: MythId| x != *relationship_id,
            ),
            r == seq_has_id(old(self).relationships@, *relationship_id),
    {
        remove_id(&mut self.relationships, relationship_id)
    }

    /// The regions.
    pub fn regions(&self) -> (r: &Vec<String>)
        ensures
            r@ == self.regions@,
    {
        &self.regions
    }

    /// The time periods.
    pub fn time_periods(&self) -> (r: &Vec<TimePeriod>)
        ensures
            r@ == self.time_periods@,
    {
        &self.time_periods
    }

    /// The influences.
    pub fn influences(&self) -> (r: &Vec<String>)
        ensures
            r@ == self.influences@,
    {
        &self.influences
    }

    /// The languages.
    pub fn languages(&self) -> (r: &Vec<String>)
        ensures
            r@ == self.languages@,
    {
        &self.languages
    }
}

} // verus!
