//! Scans over the store: evaluate a filter list against every entity,
//! follow an entity's outgoing relationships one hop, and the convenience
//! single-predicate lookups.

use vstd::prelude::*;
use crate::entity::MythEntity;
use crate::ids::{MythId, seq_has_id};
use crate::ontology::{MythOntology, has_entity, spec_get};
use crate::query::filters::QueryFilter;
use crate::query::results::{QueryResult, QueryResultSet, result_ids, summarizes};
use crate::text::{lower_of, seq_contains};

verus! {

/// Every filter in the list accepts the entity; an empty list accepts
/// everything.
pub open spec fn all_match(filters: Seq<QueryFilter>, e: MythEntity) -> bool {
    forall|i: int| 0 <= i < filters.len() ==> #[trigger] filters[i].spec_matches(&e)
}

/// An empty filter list accepts every entity, so a query with it keeps the
/// whole store: one summary per stored entity.
pub proof fn lemma_empty_filters_keep_all(s: Seq<MythEntity>)
    ensures
        s.filter(|e: MythEntity| all_match(Seq::<QueryFilter>::empty(), e)) == s,
    decreases s.len(),
{
    reveal(Seq::filter);
    let pred = |e: MythEntity| all_match(Seq::<QueryFilter>::empty(), e);
    if s.len() == 0 {
        assert(s.filter(pred) =~= s);
    } else {
        lemma_empty_filters_keep_all(s.drop_last());
        assert(pred(s.last()));
        assert(s.filter(pred) =~= s.drop_last().filter(pred).push(s.last()));
        assert(s.filter(pred) =~= s);
    }
}

/// The identifiers a one-hop traversal resolves, in order: of the listed
/// identifiers, those that name a stored entity, first occurrences only,
/// skipping any already seen.
pub open spec fn resolved_ids(s: Seq<MythEntity>, ids: Seq<MythId>, seen: Seq<MythId>) -> Seq<
    MythId,
>
    decreases ids.len(),
{
    if ids.len() == 0 {
        Seq::<MythId>::empty()
    } else if has_entity(s, ids[0]) && !seq_has_id(seen, ids[0]) {
        seq![ids[0]] + resolved_ids(s, ids.skip(1), seen.push(ids[0]))
    } else {
        resolved_ids(s, ids.skip(1), seen)
    }
}

/// Engine for querying the ontology; borrows the store for its lifetime.
pub struct QueryEngine<'a> {
    /// The store being queried.
    pub ontology: &'a MythOntology,
}

impl<'a> QueryEngine<'a> {
    /// A new query engine over a store.
    pub fn new(ontology: &'a MythOntology) -> (r: QueryEngine<'a>)
        ensures
            r.ontology == ontology,
    {
        QueryEngine { ontology }
    }

    /// The entities satisfying every filter in the list, summarized one per
    /// matching entity, in store order, no identifier repeated.
    pub fn query(&self, filters: &[QueryFilter]) -> (r: QueryResultSet)
        requires
            self.ontology.wf(),
        ensures
            ({
                let matching = self.ontology.entities@.filter(
                    |e: MythEntity| all_match(filters@, e),
                );
                &&& r.results@.len() == matching.len()
                &&& forall|k: int|
                    0 <= k < matching.len() ==> summarizes(#[trigger] r.results@[k], matching[k])
                &&& forall|k1: int, k2: int|
                    0 <= k1 < k2 < r.results@.len() ==> #[trigger] r.results@[k1].id
                        != #[trigger] r.results@[k2].id
            }),
    {
        let ghost pred = |e: MythEntity| all_match(filters@, e);
        let n = self.ontology.entities.len();
        let mut results: Vec<QueryResult> = Vec::new();
        let mut i: usize = 0;
        proof {
            reveal(Seq::filter);
            assert(self.ontology.entities@.subrange(0, 0) =~= Seq::<MythEntity>::empty());
        }
        while i < n
            invariant
                0 <= i <= n,
                n == self.ontology.entities@.len(),
                self.ontology.wf(),
                pred == (|e: MythEntity| all_match(filters@, e)),
                ({
                    let matching = self.ontology.entities@.subrange(0, i as int).filter(pred);
                    &&& results@.len() == matching.len()
                    &&& forall|k: int|
                        0 <= k < matching.len() ==> summarizes(
                            #[trigger] results@[k],
                            matching[k],
                        )
                }),
                forall|k: int|
                    0 <= k < results@.len() ==> exists|l: int|
                        0 <= l < i && #[trigger] results@[k].id == self.ontology.entities@[
                            l
                        ].spec_id(),
                forall|k1: int, k2: int|
                    0 <= k1 < k2 < results@.len() ==> #[trigger] results@[k1].id
                        != #[trigger] results@[k2].id,
            decreases n - i,
        {
            let entity = &self.ontology.entities[i];
            let m = filters.len();
            let mut all_ok = true;
            let mut j: usize = 0;
            while j < m
                invariant
                    0 <= j <= m,
                    m == filters@.len(),
                    0 <= i < self.ontology.entities@.len(),
                    *entity == self.ontology.entities@[i as int],
                    all_ok == (forall|k: int|
                        0 <= k < j ==> #[trigger] filters@[k].spec_matches(entity)),
                decreases m - j,
            {
                if !filters[j].matches(entity) {
                    all_ok = false;
                }
                j += 1;
            }
            let ghost prefix = self.ontology.entities@.subrange(0, i as int);
            let ghost prefix_next = self.ontology.entities@.subrange(0, i + 1 as int);
            proof {
                reveal(Seq::filter);
                assert(prefix_next.drop_last() =~= prefix);
                assert(prefix_next.last() == self.ontology.entities@[i as int]);
                assert(all_ok == pred(self.ontology.entities@[i as int]));
            }
            if all_ok {
                results.push(
                    QueryResult {
                        id: *entity.id(),
                        name: entity.name().to_owned(),
                        entity_type: entity.entity_type().to_owned(),
                    },
                );
                proof {
                    let matching = prefix_next.filter(pred);
                    assert(matching =~= prefix.filter(pred).push(
                        self.ontology.entities@[i as int],
                    ));
                    assert(summarizes(
                        results@.last(),
                        self.ontology.entities@[i as int],
                    ));
                    assert(results@.last().id == self.ontology.entities@[i as int].spec_id());
                }
            }
            i += 1;
        }
        proof {
            assert(self.ontology.entities@.subrange(0, n as int) =~= self.ontology.entities@);
        }
        QueryResultSet { results }
    }

    /// The summaries of the stored entities one hop away from the given one:
    /// each resolvable outgoing relationship identifier, summarized exactly
    /// once; an unknown starting identifier yields nothing.
    pub fn find_related(&self, entity_id: &MythId) -> (r: QueryResultSet)
        requires
            self.ontology.wf(),
        ensures
            match spec_get(self.ontology.entities@, *entity_id) {
                None => r.results@.len() == 0,
                Some(e) => {
                    &&& result_ids(r.results@) == resolved_ids(
                        self.ontology.entities@,
                        e.spec_relationships(),
                        Seq::<MythId>::empty(),
                    )
                    &&& forall|k: int|
                        0 <= k < r.results@.len() ==> seq_has_id(
                            e.spec_relationships(),
                            #[trigger] r.results@[k].id,
                        ) && has_entity(self.ontology.entities@, r.results@[k].id) && summarizes(
                            r.results@[k],
                            spec_get(self.ontology.entities@, r.results@[k].id)->Some_0,
                        )
                    &&& forall|rid: MythId|
                        #[trigger] seq_has_id(e.spec_relationships(), rid) && has_entity(
                            self.ontology.entities@,
                            rid,
                        ) ==> exists|k: int| 0 <= k < r.results@.len() && r.results@[k].id == rid
                    &&& forall|k1: int, k2: int|
                        0 <= k1 < k2 < r.results@.len() ==> #[trigger] r.results@[k1].id
                            != #[trigger] r.results@[k2].id
                },
            },
    {
        let start = self.ontology.get_entity(entity_id);
        let related_ids: Vec<MythId> = match start {
            Some(e) => e.relationships(),
            None => {
                return QueryResultSet::empty();
            },
        };
        let ghost e = spec_get(self.ontology.entities@, *entity_id)->Some_0;
        let n = related_ids.len();
        let mut results: Vec<QueryResult> = Vec::new();
        let mut i: usize = 0;
        proof {
            assert(related_ids@.skip(0) =~= related_ids@);
            assert(result_ids(results@) =~= Seq::<MythId>::empty());
            assert(result_ids(results@) + resolved_ids(
                self.ontology.entities@,
                related_ids@.skip(0),
                result_ids(results@),
            ) =~= resolved_ids(self.ontology.entities@, related_ids@, Seq::<MythId>::empty()));
        }
        while i < n
            invariant
                0 <= i <= n,
                n == related_ids@.len(),
                self.ontology.wf(),
                related_ids@ == e.spec_relationships(),
                resolved_ids(self.ontology.entities@, related_ids@, Seq::<MythId>::empty())
                    == result_ids(results@) + resolved_ids(
                    self.ontology.entities@,
                    related_ids@.skip(i as int),
                    result_ids(results@),
                ),
                forall|k: int|
                    0 <= k < results@.len() ==> seq_has_id(
                        e.spec_relationships(),
                        #[trigger] results@[k].id,
                    ) && has_entity(self.ontology.entities@, results@[k].id) && summarizes(
                        results@[k],
                        spec_get(self.ontology.entities@, results@[k].id)->Some_0,
                    ),
                forall|l: int|
                    0 <= l < i && has_entity(self.ontology.entities@, #[trigger] related_ids@[l])
                        ==> exists|k: int|
                        0 <= k < results@.len() && #[trigger] results@[k].id == related_ids@[l],
                forall|k1: int, k2: int|
                    0 <= k1 < k2 < results@.len() ==> #[trigger] results@[k1].id
                        != #[trigger] results@[k2].id,
            decreases n - i,
        {
            let rid = related_ids[i];
            let ghost prev = results@;
            proof {
                assert(seq_has_id(e.spec_relationships(), rid));
            }
            match self.ontology.get_entity(&rid) {
                Some(related) => {
                    let mut already = false;
                    let rn = results.len();
                    let mut k: usize = 0;
                    while k < rn
                        invariant
                            0 <= k <= rn,
                            rn == results@.len(),
                            already == (exists|k2: int|
                                0 <= k2 < k && #[trigger] results@[k2].id == rid),
                        decreases rn - k,
                    {
                        if results[k].id == rid {
                            already = true;
                        }
                        k += 1;
                    }
                    proof {
                        assert(has_entity(self.ontology.entities@, rid)
                            && *related == spec_get(self.ontology.entities@, rid)->Some_0) by {
                            assert(spec_get(self.ontology.entities@, rid) == Some(*related));
                        }
                        assert(related.spec_id() == rid) by {
                            assert(has_entity(self.ontology.entities@, rid));
                            let w = crate::ontology::index_of_id(self.ontology.entities@, rid);
                            assert(self.ontology.entities@[w].spec_id() == rid);
                        }
                    }
                    if !already {
                        results.push(
                            QueryResult {
                                id: *related.id(),
                                name: related.name().to_owned(),
                                entity_type: related.entity_type().to_owned(),
                            },
                        );
                        proof {
                            assert(results@.last().id == rid);
                        }
                    }
                },
                None => {
                    proof {
                        assert(!has_entity(self.ontology.entities@, rid));
                    }
                },
            }
            proof {
                assert forall|l: int|
                    0 <= l < i + 1 && has_entity(
                        self.ontology.entities@,
                        #[trigger] related_ids@[l],
                    ) implies exists|k: int|
                    0 <= k < results@.len() && #[trigger] results@[k].id == related_ids@[l] by {
                    if l < i {
                        let w = choose|k: int|
                            0 <= k < prev.len() && #[trigger] prev[k].id == related_ids@[l];
                        assert(results@[w].id == related_ids@[l]);
                    }
                }
                let s_store = self.ontology.entities@;
                let rest = related_ids@.skip(i as int);
                let rp = result_ids(prev);
                let rn2 = result_ids(results@);
                assert(rest[0] == related_ids@[i as int]);
                assert(rest.skip(1) =~= related_ids@.skip(i + 1));
                assert(seq_has_id(rp, rid) == (exists|k: int|
                    0 <= k < prev.len() && #[trigger] prev[k].id == rid)) by {
                    if seq_has_id(rp, rid) {
                        let w = choose|k: int| 0 <= k < rp.len() && rp[k] == rid;
                        assert(prev[w].id == rid);
                    }
                    if exists|k: int| 0 <= k < prev.len() && #[trigger] prev[k].id == rid {
                        let w = choose|k: int| 0 <= k < prev.len() && #[trigger] prev[k].id == rid;
                        assert(rp[w] == rid);
                    }
                }
                if results@.len() == prev.len() + 1 {
                    assert(rn2 =~= rp.push(rid));
                    assert(has_entity(s_store, rid) && !seq_has_id(rp, rid));
                    assert(resolved_ids(s_store, rest, rp) == seq![rid] + resolved_ids(
                        s_store,
                        related_ids@.skip(i + 1),
                        rn2,
                    ));
                    assert(rp + (seq![rid] + resolved_ids(s_store, related_ids@.skip(i + 1), rn2))
                        =~= rn2 + resolved_ids(s_store, related_ids@.skip(i + 1), rn2));
                } else {
                    assert(results@ == prev);
                    assert(rn2 == rp);
                    assert(!(has_entity(s_store, rid) && !seq_has_id(rp, rid)));
                    assert(resolved_ids(s_store, rest, rp) == resolved_ids(
                        s_store,
                        related_ids@.skip(i + 1),
                        rp,
                    ));
                }
            }
            i += 1;
        }
        proof {
            assert(related_ids@.skip(n as int) =~= Seq::<MythId>::empty());
            assert(result_ids(results@) + resolved_ids(
                self.ontology.entities@,
                Seq::<MythId>::empty(),
                result_ids(results@),
            ) =~= result_ids(results@));
        }
        QueryResultSet { results }
    }

    /// The entities whose lowercased name contains the lowercased pattern,
    /// summarized one per matching entity, in store order.
    pub fn find_by_name(&self, name: &str) -> (r: QueryResultSet)
        requires
            self.ontology.wf(),
        ensures
            ({
                let matching = self.ontology.entities@.filter(
                    |e: MythEntity| seq_contains(lower_of(e.spec_name()), lower_of(name@)),
                );
                &&& r.results@.len() == matching.len()
                &&& forall|k: int|
                    0 <= k < matching.len() ==> summarizes(#[trigger] r.results@[k], matching[k])
                &&& forall|k1: int, k2: int|
                    0 <= k1 < k2 < r.results@.len() ==> #[trigger] r.results@[k1].id
                        != #[trigger] r.results@[k2].id
            }),
    {
        let mut filters: Vec<QueryFilter> = Vec::new();
        filters.push(QueryFilter::NameContains(name.to_owned()));
        let r = self.query(filters.as_slice());
        proof {
            let pred1 = |e: MythEntity| all_match(filters@, e);
            let pred2 = |e: MythEntity| seq_contains(lower_of(e.spec_name()), lower_of(name@));
            assert forall|e: MythEntity| #[trigger] pred1(e) == pred2(e) by {
                assert(filters@[0].spec_matches(&e) == seq_contains(
                    lower_of(e.spec_name()),
                    lower_of(name@),
                ));
                if pred2(e) {
                    assert(forall|k: int|
                        0 <= k < filters@.len() ==> #[trigger] filters@[k].spec_matches(&e));
                }
            }
            assert(pred1 =~= pred2);
        }
        r
    }

    /// The entities whose stable type tag equals the given one, summarized
    /// one per matching entity, in store order.
    pub fn find_by_type(&self, entity_type: &str) -> (r: QueryResultSet)
        requires
            self.ontology.wf(),
        ensures
            ({
                let matching = self.ontology.entities@.filter(
                    |e: MythEntity| e.spec_entity_type() == entity_type@,
                );
                &&& r.results@.len() == matching.len()
                &&& forall|k: int|
                    0 <= k < matching.len() ==> summarizes(#[trigger] r.results@[k], matching[k])
                &&& forall|k1: int, k2: int|
                    0 <= k1 < k2 < r.results@.len() ==> #[trigger] r.results@[k1].id
                        != #[trigger] r.results@[k2].id
            }),
    {
        let mut filters: Vec<QueryFilter> = Vec::new();
        filters.push(QueryFilter::EntityType(entity_type.to_owned()));
        let r = self.query(filters.as_slice());
        proof {
            let pred1 = |e: MythEntity| all_match(filters@, e);
            let pred2 = |e: MythEntity| e.spec_entity_type() == entity_type@;
            assert forall|e: MythEntity| #[trigger] pred1(e) == pred2(e) by {
                assert(filters@[0].spec_matches(&e) == (e.spec_entity_type() == entity_type@));
                if pred2(e) {
                    assert(forall|k: int|
                        0 <= k < filters@.len() ==> #[trigger] filters@[k].spec_matches(&e));
                }
            }
            assert(pred1 =~= pred2);
        }
        r
    }
}

} // verus!
