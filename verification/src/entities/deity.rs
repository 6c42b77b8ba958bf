//! Deities: gods and goddesses, with their domains of influence, pantheon,
//! gender representation and importance.

use vstd::prelude::*;
use crate::ids::{MythId, seq_has_id, insert_unique_id, remove_id};
use crate::metadata::{Metadata, Source};
use crate::names::{CultureId, DomainId, PantheonId, insert_unique_name};
use crate::text::seq_has_view;

verus! {

/// An alternative name, title or epithet of a deity.
#[derive(Debug, Clone)]
pub struct DeityName(pub String);

impl View for DeityName {
    type V = Seq<char>;

    open spec fn view(&self) -> Seq<char> {
        self.0@
    }
}

impl DeityName {
    /// Wrap a name or epithet.
    pub fn new(name: &str) -> (r: DeityName)
        ensures
            r@ == name@,
    {
        DeityName(name.to_owned())
    }

    /// The inner string value.
    pub fn value(&self) -> (r: &str)
        ensures
            r@ == self@,
    {
        self.0.as_str()
    }
}

/// Gender representation of a deity.
#[derive(Debug, Clone, PartialEq)]
pub enum Gender {
    Male,
    Female,
    NonBinary,
    Fluid,
    Androgynous,
    Unknown,
    /// Custom or culture-specific gender concept.
    Other(String),
}

/// Importance or hierarchical level of a deity within their pantheon.
#[derive(Debug, Clone, PartialEq)]
pub enum DeityImportance {
    /// Chief or head deity of a pantheon.
    Supreme,
    /// Significant deity with broad influence.
    Major,
    /// Lesser deity with limited domains.
    Minor,
    /// Part divine, part mortal.
    Demigod,
    /// Worshipped primarily in a specific region.
    Local,
    /// Domestic or family deity.
    Household,
    Unknown,
}

/// A deity, with its cultural context, domains and relationships.
#[derive(Debug, Clone)]
pub struct Deity {
    /// Unique identifier.
    pub id: MythId,
    /// Primary name.
    pub name: String,
    /// Alternative names, titles or epithets.
    pub alternative_names: Vec<DeityName>,
    /// Description of the deity's nature and significance.
    pub description: String,
    /// Spheres of influence or power; each occurs at most once.
    pub domains: Vec<DomainId>,
    /// Cultural tradition to which this deity belongs.
    pub culture: CultureId,
    /// Group of related deities, if known.
    pub pantheon: Option<PantheonId>,
    /// Gender representation.
    pub gender: Gender,
    /// Relative importance within the pantheon.
    pub importance: DeityImportance,
    /// Identifiers of relationships this deity takes part in.
    pub relationships: Vec<MythId>,
    /// Provenance and bookkeeping.
    pub metadata: Metadata,
}

impl Deity {
    /// A new deity with a fresh identifier, fresh metadata and default
    /// attributes.
    pub fn new(name: &str, description: &str, culture: &str) -> (r: Deity)
        ensures
            r.name@ == name@,
            r.description@ == description@,
            r.culture@ == culture@,
            r.alternative_names@ == Seq::<DeityName>::empty(),
            r.domains@ == Seq::<DomainId>::empty(),
            r.pantheon is None,
            r.gender == Gender::Unknown,
            r.importance == DeityImportance::Unknown,
            r.relationships@ == Seq::<MythId>::empty(),
            r.metadata.sources@ == Seq::<Source>::empty(),
            r.metadata.attributes@ == Seq::<(String, String)>::empty(),
    {
        Deity {
            id: MythId::new(),
            name: name.to_owned(),
            alternative_names: Vec::new(),
            description: description.to_owned(),
            domains: Vec::new(),
            culture: CultureId::new(culture),
            pantheon: None,
            gender: Gender::Unknown,
            importance: DeityImportance::Unknown,
            relationships: Vec::new(),
            metadata: Metadata::new(),
        }
    }

    /// Add a domain of influence; a domain already present is not repeated.
    pub fn add_domain(&mut self, domain: &str)
        ensures
            (*final(self) == (Deity { domains: final(self).domains, ..(*old(self)) })),
            seq_has_view(old(self).domains@, domain@) ==> final(self).domains@ == old(
                self,
            ).domains@,
            !seq_has_view(old(self).domains@, domain@) ==> final(self).domains@.len() == old(
                self,
            ).domains@.len() + 1 && final(self).domains@.subrange(
                0,
                old(self).domains@.len() as int,
            ) == old(self).domains@ && final(self).domains@.last()@ == domain@,
    {
        insert_unique_name(&mut self.domains, domain);
    }

    /// Append an alternative name or epithet.
    pub fn add_alternative_name(&mut self, name: &str)
        ensures
            (*final(self) == (Deity {
                alternative_names: final(self).alternative_names,
                ..(*old(self))
            })),
            final(self).alternative_names@.len() == old(self).alternative_names@.len() + 1,
            final(self).alternative_names@.subrange(0, old(self).alternative_names@.len() as int)
                == old(self).alternative_names@,
            final(self).alternative_names@.last()@ == name@,
    {
        self.alternative_names.push(DeityName::new(name));
        proof {
            assert(final(self).alternative_names@.subrange(
                0,
                old(self).alternative_names@.len() as int,
            ) =~= old(self).alternative_names@);
        }
    }

    /// Set the pantheon this deity belongs to.
    pub fn set_pantheon(&mut self, pantheon: &str)
        ensures
            (*final(self) == (Deity { pantheon: final(self).pantheon, ..(*old(self)) })),
            final(self).pantheon matches Some(p) && p@ == pantheon@,
    {
        self.pantheon = Some(PantheonId::new(pantheon));
    }

    /// Set the gender representation.
    pub fn set_gender(&mut self, gender: Gender)
        ensures
            (*final(self) == (Deity { gender, ..(*old(self)) })),
    {
        self.gender = gender;
    }

    /// Set the importance level.
    pub fn set_importance(&mut self, importance: DeityImportance)
        ensures
            (*final(self) == (Deity { importance, ..(*old(self)) })),
    {
        self.importance = importance;
    }

    /// Record that this deity takes part in a relationship.
    pub fn add_relationship(&mut self, relationship_id: MythId)
        ensures
            (*final(self) == (Deity { relationships: final(self).relationships, ..(*old(self)) })),
            final(self).relationships@ == old(self).relationships@.push(relationship_id),
    {
        self.relationships.push(relationship_id);
    }

    /// Forget a relationship; true when it was recorded.
    pub fn remove_relationship(&mut self, relationship_id: &MythId) -> (r: bool)
        ensures
            (*final(self) == (Deity { relationships: final(self).relationships, ..(*old(self)) })),
            final(self).relationships@ == old(self).relationships@.filter(
                |x: MythId| x != *relationship_id,
            ),
            r == seq_has_id(old(self).relationships@, *relationship_id),
    {
        remove_id(&mut self.relationships, relationship_id)
    }

    /// The domains of influence.
    pub fn domains(&self) -> (r: &Vec<DomainId>)
        ensures
            r@ == self.domains@,
    {
        &self.domains
    }

    /// The alternative names.
    pub fn alternative_names(&self) -> (r: &Vec<DeityName>)
        ensures
            r@ == self.alternative_names@,
    {
        &self.alternative_names
    }

    /// The pantheon, if set.
    pub fn pantheon(&self) -> (r: Option<&PantheonId>)
        ensures
            match r {
                Some(p) => self.pantheon matches Some(q) && q == *p,
                None => self.pantheon is None,
            },
    {
        self.pantheon.as_ref()
    }

    /// The cultural origin.
    pub fn culture(&self) -> (r: &CultureId)
        ensures
            *r == self.culture,
    {
        &self.culture
    }
}

} // verus!
