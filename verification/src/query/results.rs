//! Query results: lightweight (identifier, name, type) summaries and an
//! ordered collection of them.

use vstd::prelude::*;
use crate::entity::MythEntity;
use crate::ids::MythId;
use crate::text::{lex_le, lemma_lex_le_total, lemma_lex_le_trans, str_le};

verus! {

/// A single query result: the lightweight summary of one entity.
#[derive(Debug, Clone)]
pub struct QueryResult {
    /// Entity identifier.
    pub id: MythId,
    /// Entity name.
    pub name: String,
    /// Entity type tag.
    pub entity_type: String,
}

/// A result summarizes an entity: same identifier, name and type tag.
pub open spec fn summarizes(r: QueryResult, e: MythEntity) -> bool {
    r.id == e.spec_id() && r.name@ == e.spec_name() && r.entity_type@ == e.spec_entity_type()
}

/// The identifiers the results carry, in order.
pub open spec fn result_ids(s: Seq<QueryResult>) -> Seq<MythId> {
    s.map_values(|x: QueryResult| x.id)
}

/// Names appear in lexicographic order.
pub open spec fn sorted_by_name(s: Seq<QueryResult>) -> bool {
    forall|i: int, j: int| 0 <= i < j < s.len() ==> lex_le(#[trigger] s[i].name@, #[trigger] s[j].name@)
}

/// Swapping two positions of a sequence leaves its multiset of elements
/// unchanged.
proof fn lemma_swap_multiset(s: Seq<QueryResult>, i: int, j: int)
    requires
        0 <= i < j < s.len(),
    ensures
        s.update(i, s[j]).update(j, s[i]).to_multiset() == s.to_multiset(),
{
    broadcast use vstd::seq_lib::to_multiset_update;

    broadcast use vstd::seq_lib::group_to_multiset_ensures;
    broadcast use vstd::multiset::group_multiset_axioms;

    let s1 = s.update(i, s[j]);
    assert(s.contains(s[i]));
    assert(s.contains(s[j]));
    assert(s1.to_multiset() == s.to_multiset().insert(s[j]).remove(s[i]));
    assert(s1[j] == s[j]);
    assert(s1.update(j, s[i]).to_multiset() == s1.to_multiset().insert(s[i]).remove(s1[j]));
    assert(s.to_multiset().insert(s[j]).remove(s[i]).insert(s[i]).remove(s[j]) =~= s.to_multiset());
}

/// An ordered set of query results.
#[derive(Debug)]
pub struct QueryResultSet {
    /// The results.
    pub results: Vec<QueryResult>,
}

impl QueryResultSet {
    /// An empty result set.
    pub fn empty() -> (r: QueryResultSet)
        ensures
            r.results@ == Seq::<QueryResult>::empty(),
    {
        QueryResultSet { results: Vec::new() }
    }

    /// The number of results.
    pub fn count(&self) -> (r: usize)
        ensures
            r == self.results@.len(),
    {
        self.results.len()
    }

    /// Whether the result set is empty.
    pub fn is_empty(&self) -> (r: bool)
        ensures
            r == (self.results@.len() == 0),
    {
        self.results.len() == 0
    }

    /// The first result, if any.
    pub fn first(&self) -> (r: Option<&QueryResult>)
        ensures
            match r {
                Some(q) => self.results@.len() > 0 && *q == self.results@[0],
                None => self.results@.len() == 0,
            },
    {
        if self.results.len() > 0 {
            Some(&self.results[0])
        } else {
            None
        }
    }

    /// The results whose type tag equals the given one, as a new set, in
    /// order.
    pub fn filter_by_type(&self, entity_type: &str) -> (r: QueryResultSet)
        ensures
            r.results@ == self.results@.filter(|x: QueryResult| x.entity_type@ == entity_type@),
    {
        let ghost pred = |x: QueryResult| x.entity_type@ == entity_type@;
        let tag = entity_type.to_owned();
        let n = self.results.len();
        let mut kept: Vec<QueryResult> = Vec::new();
        let mut i: usize = 0;
        proof {
            reveal(Seq::filter);
            assert(self.results@.subrange(0, 0) =~= Seq::<QueryResult>::empty());
        }
        while i < n
            invariant
                0 <= i <= n,
                n == self.results.len(),
                tag@ == entity_type@,
                kept@ == self.results@.subrange(0, i as int).filter(pred),
                pred == (|x: QueryResult| x.entity_type@ == entity_type@),
            decreases n - i,
        {
            let ghost prefix = self.results@.subrange(0, i as int);
            let ghost prefix_next = self.results@.subrange(0, i + 1 as int);
            proof {
                reveal(Seq::filter);
                assert(prefix_next.drop_last() =~= prefix);
                assert(prefix_next.last() == self.results@[i as int]);
            }
            if self.results[i].entity_type == tag {
                let x = &self.results[i];
                kept.push(
                    QueryResult {
                        id: x.id,
                        name: x.name.clone(),
                        entity_type: x.entity_type.clone(),
                    },
                );
                proof {
                    assert(kept@.last() == self.results@[i as int]);
                }
            }
            i += 1;
        }
        proof {
            assert(self.results@.subrange(0, n as int) =~= self.results@);
        }
        QueryResultSet { results: kept }
    }

    /// Sort the results by name, lexicographically; the same results, in
    /// order.
    pub fn sort_by_name(&mut self)
        ensures
            final(self).results@.to_multiset() == old(self).results@.to_multiset(),
            final(self).results@.len() == old(self).results@.len(),
            sorted_by_name(final(self).results@),
    {
        let n = self.results.len();
        if n <= 1 {
            return ;
        }
        let mut i: usize = 1;
        while i < n
            invariant
                1 <= i <= n,
                n == self.results.len(),
                self.results@.to_multiset() == old(self).results@.to_multiset(),
                forall|k1: int, k2: int|
                    0 <= k1 < k2 < i ==> lex_le(
                        #[trigger] self.results@[k1].name@,
                        #[trigger] self.results@[k2].name@,
                    ),
            decreases n - i,
        {
            let mut j: usize = i;
            while j > 0
                invariant
                    0 <= j <= i < n,
                    n == self.results.len(),
                    self.results@.to_multiset() == old(self).results@.to_multiset(),
                    forall|k1: int, k2: int|
                        0 <= k1 < k2 <= i && k2 != j ==> lex_le(
                            #[trigger] self.results@[k1].name@,
                            #[trigger] self.results@[k2].name@,
                        ),
                ensures
                    0 <= j <= i < n,
                    n == self.results.len(),
                    self.results@.to_multiset() == old(self).results@.to_multiset(),
                    forall|k1: int, k2: int|
                        0 <= k1 < k2 <= i && k2 != j ==> lex_le(
                            #[trigger] self.results@[k1].name@,
                            #[trigger] self.results@[k2].name@,
                        ),
                    j > 0 ==> lex_le(self.results@[j - 1].name@, self.results@[j as int].name@),
                decreases j,
            {
                if str_le(self.results[j - 1].name.as_str(), self.results[j].name.as_str()) {
                    break ;
                }
                let ghost s = self.results@;
                proof {
                    lemma_lex_le_total(s[j - 1].name@, s[j as int].name@);
                    lemma_swap_multiset(s, j - 1 as int, j as int);
                }
                let moved = self.results.remove(j - 1);
                self.results.insert(j, moved);
                proof {
                    assert(self.results@ =~= s.update(j - 1 as int, s[j as int]).update(
                        j as int,
                        s[j - 1],
                    ));
                    let s2 = self.results@;
                    assert forall|k1: int, k2: int|
                        0 <= k1 < k2 <= i && k2 != j - 1 implies lex_le(
                        #[trigger] s2[k1].name@,
                        #[trigger] s2[k2].name@,
                    ) by {
                        if k2 == j {
                            if k1 == j - 1 {
                                assert(s2[k1] == s[j as int] && s2[k2] == s[j - 1]);
                            } else {
                                assert(s2[k1] == s[k1] && s2[k2] == s[j - 1]);
                                assert(lex_le(s[k1].name@, s[j - 1].name@));
                            }
                        } else if k1 == j - 1 {
                            assert(s2[k1] == s[j as int] && s2[k2] == s[k2]);
                            assert(lex_le(s[j as int].name@, s[k2].name@));
                        } else if k1 == j {
                            assert(s2[k1] == s[j - 1] && s2[k2] == s[k2]);
                            assert(lex_le(s[j - 1].name@, s[k2].name@));
                        } else {
                            assert(s2[k1] == s[k1] && s2[k2] == s[k2]);
                        }
                    }
                }
                j -= 1;
            }
            proof {
                let s = self.results@;
                assert forall|k1: int, k2: int| 0 <= k1 < k2 <= i implies lex_le(
                    #[trigger] s[k1].name@,
                    #[trigger] s[k2].name@,
                ) by {
                    if k2 == j && j > 0 {
                        assert(lex_le(s[j - 1].name@, s[j as int].name@));
                        if k1 < j - 1 {
                            assert(lex_le(s[k1].name@, s[j - 1].name@));
                            lemma_lex_le_trans(s[k1].name@, s[j - 1].name@, s[j as int].name@);
                        }
                    }
                }
            }
            i += 1;
        }
    }

    /// The identifiers of the results, in order.
    pub fn entity_ids(&self) -> (r: Vec<MythId>)
        ensures
            r@ == self.results@.map_values(|x: QueryResult| x.id),
    {
        let n = self.results.len();
        let mut ids: Vec<MythId> = Vec::new();
        let mut i: usize = 0;
        while i < n
            invariant
                0 <= i <= n,
                n == self.results.len(),
                ids@ == self.results@.subrange(0, i as int).map_values(|x: QueryResult| x.id),
            decreases n - i,
        {
            ids.push(self.results[i].id);
            proof {
                assert(ids@ =~= self.results@.subrange(0, i + 1 as int).map_values(
                    |x: QueryResult| x.id,
                ));
            }
            i += 1;
        }
        proof {
            assert(self.results@.subrange(0, n as int) =~= self.results@);
        }
        ids
    }
}

} // verus!
