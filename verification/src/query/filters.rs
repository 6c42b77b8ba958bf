//! Composable boolean predicates over entities: simple tests on type, name,
//! culture and attributes, combined with conjunction, disjunction and
//! negation.

use vstd::prelude::*;
use crate::entity::MythEntity;
use crate::metadata::{attr_lookup, attrs_get};
use crate::names::CultureId;
use crate::text::{lower_of, seq_contains, lowercase, contains_str};

verus! {

/// A filter for querying mythological entities.
#[derive(Debug)]
pub enum QueryFilter {
    /// Exact match on the entity's stable type tag.
    EntityType(String),
    /// Case-insensitive substring test against the entity's name.
    NameContains(String),
    /// Exact match against the entity's owning culture; false where the
    /// entity has none.
    Culture(CultureId),
    /// The metadata attribute key is present.
    HasAttribute(String),
    /// The metadata attribute key is bound to exactly the value.
    AttributeEquals(String, String),
    /// Both filters match.
    And(Box<QueryFilter>, Box<QueryFilter>),
    /// At least one of the filters matches.
    Or(Box<QueryFilter>, Box<QueryFilter>),
    /// The filter does not match.
    Not(Box<QueryFilter>),
}

impl QueryFilter {
    /// What it means for an entity to satisfy this filter.
    pub open spec fn spec_matches(&self, entity: &MythEntity) -> bool
        decreases self,
    {
        match self {
            QueryFilter::EntityType(t) => entity.spec_entity_type() == t@,
            QueryFilter::NameContains(sub) => seq_contains(
                lower_of(entity.spec_name()),
                lower_of(sub@),
            ),
            QueryFilter::Culture(c) => entity.spec_culture() == Some(c@),
            QueryFilter::HasAttribute(k) => attr_lookup(
                entity.spec_metadata().attributes@,
                k@,
            ) is Some,
            QueryFilter::AttributeEquals(k, v) => attr_lookup(entity.spec_metadata().attributes@, k@)
                == Some(v@),
            QueryFilter::And(a, b) => a.spec_matches(entity) && b.spec_matches(entity),
            QueryFilter::Or(a, b) => a.spec_matches(entity) || b.spec_matches(entity),
            QueryFilter::Not(f) => !f.spec_matches(entity),
        }
    }

    /// Whether an entity satisfies this filter.
    pub fn matches(&self, entity: &MythEntity) -> (r: bool)
        ensures
            r == self.spec_matches(entity),
        decreases self,
    {
        match self {
            QueryFilter::EntityType(t) => {
                let tag = entity.entity_type().to_owned();
                tag == *t
            },
            QueryFilter::NameContains(sub) => {
                let name_lower = lowercase(entity.name());
                let sub_lower = lowercase(sub.as_str());
                contains_str(name_lower.as_str(), sub_lower.as_str())
            },
            QueryFilter::Culture(c) => {
                match entity.culture() {
                    Some(entity_culture) => *entity_culture == *c,
                    None => false,
                }
            },
            QueryFilter::HasAttribute(k) => {
                entity.metadata().has_attribute(k.as_str())
            },
            QueryFilter::AttributeEquals(k, v) => {
                match attrs_get(&entity.metadata().attributes, k.as_str()) {
                    Some(value) => *value == *v,
                    None => false,
                }
            },
            QueryFilter::And(a, b) => a.matches(entity) && b.matches(entity),
            QueryFilter::Or(a, b) => a.matches(entity) || b.matches(entity),
            QueryFilter::Not(f) => !f.matches(entity),
        }
    }

    /// Combine with another filter: both must match.
    pub fn and(self, other: QueryFilter) -> (r: QueryFilter)
        ensures
            (r matches QueryFilter::And(a, b) && *a == self && *b == other),
            forall|e: MythEntity| #[trigger] r.spec_matches(&e) == (self.spec_matches(&e)
                && other.spec_matches(&e)),
    {
        QueryFilter::And(Box::new(self), Box::new(other))
    }

    /// Combine with another filter: at least one must match.
    pub fn or(self, other: QueryFilter) -> (r: QueryFilter)
        ensures
            (r matches QueryFilter::Or(a, b) && *a == self && *b == other),
            forall|e: MythEntity| #[trigger] r.spec_matches(&e) == (self.spec_matches(&e)
                || other.spec_matches(&e)),
    {
        QueryFilter::Or(Box::new(self), Box::new(other))
    }

    /// Negate this filter.
    pub fn not(self) -> (r: QueryFilter)
        ensures
            (r matches QueryFilter::Not(f) && *f == self),
            forall|e: MythEntity| #[trigger] r.spec_matches(&e) == !self.spec_matches(&e),
    {
        QueryFilter::Not(Box::new(self))
    }
}

/// An entity-type filter matches exactly the entities whose stable type tag
/// equals the filter's text.
pub proof fn lemma_entity_type_filter(t: String, e: MythEntity)
    ensures
        QueryFilter::EntityType(t).spec_matches(&e) == (e.spec_entity_type() == t@),
{
}

/// A name filter matches exactly the entities whose lowercased name contains
/// the lowercased pattern.
pub proof fn lemma_name_contains_filter(sub: String, e: MythEntity)
    ensures
        QueryFilter::NameContains(sub).spec_matches(&e) == seq_contains(
            lower_of(e.spec_name()),
            lower_of(sub@),
        ),
{
}

/// Boolean algebra of filters: conjunction and disjunction evaluate
/// component-wise, negation flips, and a double negation says what the inner
/// filter says.
pub proof fn lemma_filter_boolean_algebra(f: QueryFilter, e: MythEntity)
    ensures
        (f matches QueryFilter::And(a, b) ==> f.spec_matches(&e) == (a.spec_matches(&e)
            && b.spec_matches(&e))),
        (f matches QueryFilter::Or(a, b) ==> f.spec_matches(&e) == (a.spec_matches(&e)
            || b.spec_matches(&e))),
        (f matches QueryFilter::Not(g) ==> f.spec_matches(&e) == !g.spec_matches(&e)),
        (f matches QueryFilter::Not(g) ==> (*g matches QueryFilter::Not(h) ==> f.spec_matches(&e)
            == h.spec_matches(&e))),
{
    if let QueryFilter::Not(g) = f {
        assert(f.spec_matches(&e) == !g.spec_matches(&e));
        if let QueryFilter::Not(h) = *g {
            assert(g.spec_matches(&e) == !h.spec_matches(&e));
        }
    }
}

} // verus!
