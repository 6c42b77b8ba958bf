//! Universally unique identifiers for everything the ontology stores.
//!
//! A `MythId` is a 128-bit random value rendered as, and parsed from, the
//! canonical hyphenated hexadecimal string. The random generation, the parse
//! and the rendering are done by the `uuid` crate behind trusted wrappers;
//! the identifier itself is a plain value that the rest of the library
//! reasons about directly.

use vstd::prelude::*;

verus! {

/// What `uuid::Uuid::parse_str` yields on a given string: a pure function of
/// the input characters, `None` where the parse fails.
pub uninterp spec fn parsed_id(s: Seq<char>) -> Option<u128>;

/// The canonical hyphenated lower-case text of a 128-bit identifier, as
/// `uuid::Uuid`'s `Display` renders it: a pure function of the value.
pub uninterp spec fn id_text_of(v: u128) -> Seq<char>;

#[verifier::external_type_specification]
#[verifier::external_body]
pub struct ExUuidError(uuid::Error);

/// Relies on `uuid::Uuid::new_v4` (via `as_u128`): a fresh random identifier.
/// Nothing can be promised of the value.
#[verifier::external_body]
fn fresh_id_value() -> u128 {
    uuid::Uuid::new_v4().as_u128()
}

/// Relies on `uuid::Uuid::parse_str` (via `as_u128`): the parse is a pure
/// function of the input string, named by `parsed_id`.
#[verifier::external_body]
fn parse_id_value(s: &str) -> (r: Result<u128, uuid::Error>)
    ensures
        r is Ok <==> parsed_id(s@) is Some,
        r is Ok ==> parsed_id(s@) == Some(r->Ok_0),
{
    match uuid::Uuid::parse_str(s) {
        Ok(u) => Ok(u.as_u128()),
        Err(e) => Err(e),
    }
}

/// Relies on `uuid::Uuid::from_u128` and its `Display` (via `to_string`): the
/// hyphenated lower-case form, 36 characters, a pure function of the value,
/// which `uuid::Uuid::parse_str` accepts and maps back to the value.
#[verifier::external_body]
fn render_id_value(v: u128) -> (r: String)
    ensures
        r@ == id_text_of(v),
        r@.len() == 36,
        parsed_id(r@) == Some(v),
{
    uuid::Uuid::from_u128(v).to_string()
}

/// The error a malformed identifier string parses to.
#[derive(Debug, Clone, Copy, PartialEq, Eq, Structural)]
pub enum MythIdError {
    MalformedIdentifier,
}

/// A universally unique identifier for any entity, relationship or cultural
/// context in the ontology: one flat namespace across all kinds.
#[derive(Debug, Clone, Copy, PartialEq, Eq, Hash, Structural)]
pub struct MythId(pub u128);

impl MythId {
    /// Generate a fresh random identifier.
    pub fn new() -> MythId {
        MythId(fresh_id_value())
    }

    /// Parse an identifier from its canonical string form.
    pub fn from_str(s: &str) -> (r: Result<MythId, MythIdError>)
        ensures
            r is Ok <==> parsed_id(s@) is Some,
            r is Ok ==> parsed_id(s@) == Some(r->Ok_0.0),
            r is Err ==> r->Err_0 == MythIdError::MalformedIdentifier,
    {
        match parse_id_value(s) {
            Ok(v) => Ok(MythId(v)),
            Err(_) => Err(MythIdError::MalformedIdentifier),
        }
    }

    /// Render the identifier in its canonical hyphenated form.
    pub fn to_string(&self) -> (r: String)
        ensures
            r@ == id_text_of(self.0),
            r@.len() == 36,
            parsed_id(r@) == Some(self.0),
    {
        render_id_value(self.0)
    }
}

/// Some element of the sequence equals the given identifier.
pub open spec fn seq_has_id(s: Seq<MythId>, id: MythId) -> bool {
    exists|i: int| 0 <= i < s.len() && s[i] == id
}

/// Insert an identifier into a list unless it is already there, so that each
/// identifier occurs at most once.
pub fn insert_unique_id(v: &mut Vec<MythId>, id: MythId)
    ensures
        seq_has_id(old(v)@, id) ==> final(v)@ == old(v)@,
        !seq_has_id(old(v)@, id) ==> final(v)@ == old(v)@.push(id),
{
    let n = v.len();
    let mut i: usize = 0;
    while i < n
        invariant
            0 <= i <= n,
            n == v.len(),
            *v == *old(v),
            forall|j: int| 0 <= j < i ==> v@[j] != id,
        decreases n - i,
    {
        if v[i] == id {
            assert(seq_has_id(v@, id));
            return ;
        }
        i += 1;
    }
    v.push(id);
}

/// A copy of a list of identifiers.
pub fn copy_ids(v: &Vec<MythId>) -> (r: Vec<MythId>)
    ensures
        r@ == v@,
{
    let n = v.len();
    let mut r: Vec<MythId> = Vec::new();
    let mut i: usize = 0;
    while i < n
        invariant
            0 <= i <= n,
            n == v.len(),
            r@ == v@.subrange(0, i as int),
        decreases n - i,
    {
        r.push(v[i]);
        proof {
            assert(r@ =~= v@.subrange(0, i + 1 as int));
        }
        i += 1;
    }
    proof {
        assert(v@.subrange(0, n as int) =~= v@);
    }
    r
}

/// Remove every occurrence of an identifier from a list; report whether any
/// was there.
pub fn remove_id(v: &mut Vec<MythId>, id: &MythId) -> (r: bool)
    ensures
        final(v)@ == old(v)@.filter(|x: MythId| x != *id),
        r == seq_has_id(old(v)@, *id),
{
    let ghost pred = |x: MythId| x != *id;
    let n = v.len();
    let mut kept: Vec<MythId> = Vec::new();
    let mut found = false;
    let mut i: usize = 0;
    proof {
        reveal(Seq::filter);
        assert(v@.subrange(0, 0) =~= Seq::<MythId>::empty());
    }
    while i < n
        invariant
            0 <= i <= n,
            n == v.len(),
            *v == *old(v),
            kept@ == v@.subrange(0, i as int).filter(pred),
            found == seq_has_id(v@.subrange(0, i as int), *id),
            pred == (|x: MythId| x != *id),
        decreases n - i,
    {
        let ghost prefix = v@.subrange(0, i as int);
        let ghost prefix_next = v@.subrange(0, i + 1 as int);
        proof {
            reveal(Seq::filter);
            assert(prefix_next.drop_last() =~= prefix);
            assert(prefix_next.last() == v@[i as int]);
            assert(seq_has_id(prefix_next, *id) == (seq_has_id(prefix, *id) || v@[i as int]
                == *id)) by {
                if seq_has_id(prefix, *id) {
                    let w = choose|k: int| 0 <= k < prefix.len() && prefix[k] == *id;
                    assert(prefix_next[w] == *id);
                }
                if v@[i as int] == *id {
                    assert(prefix_next[i as int] == *id);
                }
                if seq_has_id(prefix_next, *id) && v@[i as int] != *id {
                    let w = choose|k: int| 0 <= k < prefix_next.len() && prefix_next[k] == *id;
                    assert(prefix[w] == *id);
                }
            }
        }
        if v[i] == *id {
            found = true;
        } else {
            kept.push(v[i]);
        }
        i += 1;
    }
    proof {
        assert(v@.subrange(0, n as int) =~= v@);
    }
    *v = kept;
    found
}

impl Default for MythId {
    /// A fresh random identifier.
    fn default() -> MythId {
        MythId::new()
    }
}

} // verus!
