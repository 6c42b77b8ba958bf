//! The ontology store: the single owner of every entity, keyed by
//! identifier. Inserting with an identifier already present silently
//! replaces the prior entity; lookups of absent identifiers return nothing
//! rather than failing.

use vstd::prelude::*;
use crate::entity::MythEntity;
use crate::ids::MythId;

verus! {

/// No identifier occurs twice in the sequence.
pub open spec fn unique_ids(s: Seq<MythEntity>) -> bool {
    forall|i: int, j: int|
        0 <= i < s.len() && 0 <= j < s.len() && i != j ==> s[i].spec_id() != s[j].spec_id()
}

/// Some entity in the sequence has the given identifier.
pub open spec fn has_entity(s: Seq<MythEntity>, id: MythId) -> bool {
    exists|i: int| 0 <= i < s.len() && s[i].spec_id() == id
}

/// A position of an entity with the given identifier.
pub open spec fn index_of_id(s: Seq<MythEntity>, id: MythId) -> int {
    choose|i: int| 0 <= i < s.len() && s[i].spec_id() == id
}

/// What a lookup returns: the entity carrying the identifier, if any.
pub open spec fn spec_get(s: Seq<MythEntity>, id: MythId) -> Option<MythEntity> {
    if has_entity(s, id) {
        Some(s[index_of_id(s, id)])
    } else {
        None
    }
}

/// What an insert produces: the entity replaces the one carrying its
/// identifier, or is appended.
pub open spec fn spec_add(s: Seq<MythEntity>, e: MythEntity) -> Seq<MythEntity> {
    if has_entity(s, e.spec_id()) {
        s.update(index_of_id(s, e.spec_id()), e)
    } else {
        s.push(e)
    }
}

/// What a removal leaves: the sequence without the entity carrying the
/// identifier.
pub open spec fn spec_remove(s: Seq<MythEntity>, id: MythId) -> Seq<MythEntity> {
    if has_entity(s, id) {
        s.remove(index_of_id(s, id))
    } else {
        s
    }
}

/// Under unique identifiers, an entity found at a position is the one the
/// lookup functions speak of.
pub proof fn lemma_index_unique(s: Seq<MythEntity>, i: int, id: MythId)
    requires
        unique_ids(s),
        0 <= i < s.len(),
        s[i].spec_id() == id,
    ensures
        has_entity(s, id),
        index_of_id(s, id) == i,
{
    assert(has_entity(s, id));
    let j = index_of_id(s, id);
    assert(0 <= j < s.len() && s[j].spec_id() == id);
    if j != i {
        assert(s[i].spec_id() != s[j].spec_id());
    }
}

/// Inserting keeps identifiers unique.
pub proof fn lemma_unique_add(s: Seq<MythEntity>, e: MythEntity)
    requires
        unique_ids(s),
    ensures
        unique_ids(spec_add(s, e)),
{
    let s2 = spec_add(s, e);
    if has_entity(s, e.spec_id()) {
        let k = index_of_id(s, e.spec_id());
        assert(0 <= k < s.len() && s[k].spec_id() == e.spec_id());
        assert forall|i: int, j: int|
            0 <= i < s2.len() && 0 <= j < s2.len() && i != j implies s2[i].spec_id()
            != s2[j].spec_id() by {
            if i != k && j != k {
                assert(s2[i] == s[i] && s2[j] == s[j]);
            } else if i == k {
                assert(s2[j] == s[j]);
                assert(s[k].spec_id() != s[j].spec_id());
            } else {
                assert(s2[i] == s[i]);
                assert(s[i].spec_id() != s[k].spec_id());
            }
        }
    } else {
        assert forall|i: int, j: int|
            0 <= i < s2.len() && 0 <= j < s2.len() && i != j implies s2[i].spec_id()
            != s2[j].spec_id() by {
            if i < s.len() && j < s.len() {
                assert(s2[i] == s[i] && s2[j] == s[j]);
            } else if i == s.len() {
                assert(s2[i] == e && s2[j] == s[j]);
            } else {
                assert(s2[j] == e && s2[i] == s[i]);
            }
        }
    }
}

/// Removing keeps identifiers unique.
pub proof fn lemma_unique_remove(s: Seq<MythEntity>, id: MythId)
    requires
        unique_ids(s),
    ensures
        unique_ids(spec_remove(s, id)),
{
    if has_entity(s, id) {
        let k = index_of_id(s, id);
        let s2 = s.remove(k);
        assert forall|i: int, j: int|
            0 <= i < s2.len() && 0 <= j < s2.len() && i != j implies s2[i].spec_id()
            != s2[j].spec_id() by {
            let i0: int = if i < k {
                i
            } else {
                i + 1
            };
            let j0: int = if j < k {
                j
            } else {
                j + 1
            };
            assert(s2[i] == s[i0] && s2[j] == s[j0]);
            assert(s[i0].spec_id() != s[j0].spec_id());
        }
    }
}

/// Round-trip identity: after an insert, looking the inserted entity's
/// identifier up yields exactly that entity, whether or not the identifier
/// was taken before.
pub proof fn lemma_add_then_get(s: Seq<MythEntity>, e: MythEntity)
    requires
        unique_ids(s),
    ensures
        spec_get(spec_add(s, e), e.spec_id()) == Some(e),
{
    let id = e.spec_id();
    let s2 = spec_add(s, e);
    lemma_unique_add(s, e);
    if has_entity(s, id) {
        let k = index_of_id(s, id);
        assert(0 <= k < s.len() && s[k].spec_id() == id);
        assert(s2[k] == e);
        lemma_index_unique(s2, k, id);
    } else {
        let k = s.len() as int;
        assert(s2[k] == e);
        lemma_index_unique(s2, k, id);
    }
}

/// Deletion: removing a present identifier makes its lookup miss and
/// shrinks the store by exactly one entity.
pub proof fn lemma_remove_then_get(s: Seq<MythEntity>, id: MythId)
    requires
        unique_ids(s),
        has_entity(s, id),
    ensures
        spec_get(spec_remove(s, id), id) is None,
        spec_remove(s, id).len() == s.len() - 1,
{
    let k = index_of_id(s, id);
    assert(0 <= k < s.len() && s[k].spec_id() == id);
    let s2 = s.remove(k);
    assert forall|j: int| 0 <= j < s2.len() implies s2[j].spec_id() != id by {
        let j0: int = if j < k {
            j
        } else {
            j + 1
        };
        assert(s2[j] == s[j0]);
        assert(j0 != k);
        assert(s[j0].spec_id() != s[k].spec_id());
    }
    assert(!has_entity(s2, id));
}

/// Inserting an entity whose identifier is taken replaces the prior entity
/// and leaves the count unchanged; a fresh identifier grows the store by
/// one.
pub proof fn lemma_add_count(s: Seq<MythEntity>, e: MythEntity)
    requires
        unique_ids(s),
    ensures
        has_entity(s, e.spec_id()) ==> spec_add(s, e).len() == s.len(),
        !has_entity(s, e.spec_id()) ==> spec_add(s, e).len() == s.len() + 1,
{
}

/// The ontology store: owns and indexes every entity by identifier.
#[derive(Debug)]
pub struct MythOntology {
    /// The stored entities, identifiers unique, in insertion order.
    pub entities: Vec<MythEntity>,
}

impl MythOntology {
    /// Well-formed: no two stored entities share an identifier. Every
    /// operation of the store preserves this.
    pub open spec fn wf(&self) -> bool {
        unique_ids(self.entities@)
    }

    /// A new empty ontology.
    pub fn new() -> (r: MythOntology)
        ensures
            r.entities@ == Seq::<MythEntity>::empty(),
            r.wf(),
    {
        MythOntology { entities: Vec::new() }
    }

    /// Insert an entity, keyed by its identifier. An entity already stored
    /// under that identifier is silently replaced.
    pub fn add_entity(&mut self, entity: MythEntity)
        requires
            old(self).wf(),
        ensures
            final(self).entities@ == spec_add(old(self).entities@, entity),
            final(self).wf(),
    {
        let id = *entity.id();
        let n = self.entities.len();
        let mut i: usize = 0;
        while i < n
            invariant
                0 <= i <= n,
                n == self.entities.len(),
                *self == *old(self),
                self.wf(),
                id == entity.spec_id(),
                forall|j: int| 0 <= j < i ==> self.entities@[j].spec_id() != id,
            decreases n - i,
        {
            if *self.entities[i].id() == id {
                proof {
                    lemma_index_unique(self.entities@, i as int, id);
                    lemma_unique_add(self.entities@, entity);
                }
                self.entities.set(i, entity);
                return ;
            }
            i += 1;
        }
        proof {
            assert(!has_entity(self.entities@, id));
            lemma_unique_add(self.entities@, entity);
        }
        self.entities.push(entity);
    }

    /// The entity stored under an identifier, or nothing.
    pub fn get_entity(&self, id: &MythId) -> (r: Option<&MythEntity>)
        requires
            self.wf(),
        ensures
            match r {
                Some(e) => spec_get(self.entities@, *id) == Some(*e),
                None => spec_get(self.entities@, *id) is None,
            },
    {
        let n = self.entities.len();
        let mut i: usize = 0;
        while i < n
            invariant
                0 <= i <= n,
                n == self.entities.len(),
                self.wf(),
                forall|j: int| 0 <= j < i ==> self.entities@[j].spec_id() != *id,
            decreases n - i,
        {
            if *self.entities[i].id() == *id {
                proof {
                    lemma_index_unique(self.entities@, i as int, *id);
                }
                return Some(&self.entities[i]);
            }
            i += 1;
        }
        assert(!has_entity(self.entities@, *id));
        None
    }

    /// Mutable access to the entity stored under an identifier, or nothing.
    /// The store stays well-formed as long as the caller leaves the
    /// identifier in place.
    pub fn get_entity_mut(&mut self, id: &MythId) -> (r: Option<&mut MythEntity>)
        requires
            old(self).wf(),
        ensures
            match r {
                Some(e) => has_entity(old(self).entities@, *id) && *e == old(
                    self,
                ).entities@[index_of_id(old(self).entities@, *id)] && final(self).entities@ == old(
                    self,
                ).entities@.update(index_of_id(old(self).entities@, *id), *final(e)),
                None => !has_entity(old(self).entities@, *id) && *final(self) == *old(self),
            },
    {
        let n = self.entities.len();
        let mut i: usize = 0;
        while i < n
            invariant
                0 <= i <= n,
                n == self.entities.len(),
                *self == *old(self),
                self.wf(),
                forall|j: int| 0 <= j < i ==> self.entities@[j].spec_id() != *id,
            decreases n - i,
        {
            if *self.entities[i].id() == *id {
                proof {
                    lemma_index_unique(self.entities@, i as int, *id);
                }
                return Some(&mut self.entities[i]);
            }
            i += 1;
        }
        assert(!has_entity(self.entities@, *id));
        None
    }

    /// Remove and return the entity stored under an identifier, if any.
    pub fn remove_entity(&mut self, id: &MythId) -> (r: Option<MythEntity>)
        requires
            old(self).wf(),
        ensures
            final(self).entities@ == spec_remove(old(self).entities@, *id),
            r == spec_get(old(self).entities@, *id),
            final(self).wf(),
    {
        let n = self.entities.len();
        let mut i: usize = 0;
        while i < n
            invariant
                0 <= i <= n,
                n == self.entities.len(),
                *self == *old(self),
                self.wf(),
                forall|j: int| 0 <= j < i ==> self.entities@[j].spec_id() != *id,
            decreases n - i,
        {
            if *self.entities[i].id() == *id {
                proof {
                    lemma_index_unique(self.entities@, i as int, *id);
                    lemma_unique_remove(self.entities@, *id);
                }
                let e = self.entities.remove(i);
                return Some(e);
            }
            i += 1;
        }
        assert(!has_entity(self.entities@, *id));
        None
    }

    /// All stored entities; callers must not depend on the order.
    pub fn all_entities(&self) -> (r: &Vec<MythEntity>)
        ensures
            r@ == self.entities@,
    {
        &self.entities
    }

    /// How many entities the store holds.
    pub fn entity_count(&self) -> (r: usize)
        ensures
            r == self.entities@.len(),
    {
        self.entities.len()
    }
}

impl Default for MythOntology {
    /// A new empty ontology.
    fn default() -> (r: MythOntology)
        ensures
            r.entities@ == Seq::<MythEntity>::empty(),
            r.wf(),
    {
        MythOntology::new()
    }
}

} // verus!
