//! Provenance and bookkeeping attached to every stored entity: creation and
//! modification timestamps, a list of sources, a map of free-form string
//! attributes, and an optional confidence score.
//!
//! Timestamps are microseconds since the Unix epoch, taken from the system
//! clock through a trusted `chrono` wrapper. The attribute map is an
//! association list whose lookup takes the first matching key; the setter
//! replaces the first match in place, so keys built through it stay unique.

use vstd::prelude::*;

verus! {

/// Relies on `chrono::Utc::now` (via `timestamp_micros`): the current time;
/// nothing can be promised of the value.
#[verifier::external_body]
fn now_micros() -> i64 {
    chrono::Utc::now().timestamp_micros()
}

/// Types of information sources.
#[derive(Debug, Clone, PartialEq)]
pub enum SourceType {
    Book,
    Article,
    Website,
    AcademicPaper,
    PrimaryText,
    OralTradition,
    Archaeological,
    /// Collection of texts compiled together.
    CompilationText,
    /// Literary works with mythological content.
    LiteraryText,
    Other(String),
}

/// A source of information for mythological data.
#[derive(Debug, Clone, PartialEq)]
pub struct Source {
    /// Title of the source.
    pub title: String,
    /// Author(s) of the source.
    pub author: Option<String>,
    /// Year of publication.
    pub year: Option<i32>,
    /// Type of source (book, article, website, ...).
    pub source_type: SourceType,
    /// URL if available.
    pub url: Option<String>,
    /// Additional notes about this source.
    pub notes: Option<String>,
}

/// The value the first pair with the given key carries, if any.
pub open spec fn attr_lookup(s: Seq<(String, String)>, key: Seq<char>) -> Option<Seq<char>>
    decreases s.len(),
{
    if s.len() == 0 {
        None
    } else if s[0].0@ == key {
        Some(s[0].1@)
    } else {
        attr_lookup(s.skip(1), key)
    }
}

/// Skipping a prefix free of the key leaves the lookup unchanged.
pub proof fn lemma_attr_lookup_skip(s: Seq<(String, String)>, i: int, key: Seq<char>)
    requires
        0 <= i <= s.len(),
        forall|j: int| 0 <= j < i ==> s[j].0@ != key,
    ensures
        attr_lookup(s, key) == attr_lookup(s.skip(i), key),
    decreases i,
{
    if i == 0 {
        assert(s.skip(0) =~= s);
    } else {
        assert(s[0].0@ != key);
        assert forall|j: int| 0 <= j < i - 1 implies s.skip(1)[j].0@ != key by {
            assert(s.skip(1)[j] == s[j + 1]);
        }
        lemma_attr_lookup_skip(s.skip(1), i - 1, key);
        assert(s.skip(1).skip(i - 1) =~= s.skip(i));
    }
}

/// Appending a pair with a different key leaves the lookup unchanged.
pub proof fn lemma_attr_lookup_push_other(s: Seq<(String, String)>, p: (String, String), key: Seq<char>)
    requires
        key != p.0@,
    ensures
        attr_lookup(s.push(p), key) == attr_lookup(s, key),
    decreases s.len(),
{
    if s.len() == 0 {
        assert(s.push(p)[0] == p);
        assert(s.push(p).skip(1) =~= Seq::<(String, String)>::empty());
        assert(attr_lookup(s.push(p), key) == attr_lookup(Seq::<(String, String)>::empty(), key));
    } else {
        assert(s.push(p)[0] == s[0]);
        lemma_attr_lookup_push_other(s.skip(1), p, key);
        assert(s.push(p).skip(1) =~= s.skip(1).push(p));
        if s[0].0@ != key {
            assert(attr_lookup(s.push(p), key) == attr_lookup(s.skip(1).push(p), key));
            assert(attr_lookup(s, key) == attr_lookup(s.skip(1), key));
        }
    }
}

/// Replacing the first pair that carries a key rebinds that key and leaves
/// every other key's lookup unchanged.
pub proof fn lemma_attr_lookup_update(s: Seq<(String, String)>, i: int, p: (String, String))
    requires
        0 <= i < s.len(),
        forall|j: int| 0 <= j < i ==> s[j].0@ != p.0@,
        s[i].0@ == p.0@,
    ensures
        attr_lookup(s.update(i, p), p.0@) == Some(p.1@),
        forall|k2: Seq<char>| k2 != p.0@ ==> attr_lookup(s.update(i, p), k2) == attr_lookup(s, k2),
    decreases i,
{
    if i == 0 {
        assert(s.update(0, p)[0] == p);
        assert(s.update(0, p).skip(1) =~= s.skip(1));
        assert forall|k2: Seq<char>| k2 != p.0@ implies attr_lookup(s.update(0, p), k2)
            == attr_lookup(s, k2) by {
            assert(attr_lookup(s.update(0, p), k2) == attr_lookup(s.update(0, p).skip(1), k2));
            assert(attr_lookup(s, k2) == attr_lookup(s.skip(1), k2));
        }
    } else {
        assert(s.update(i, p)[0] == s[0]);
        assert(s[0].0@ != p.0@);
        assert forall|j: int| 0 <= j < i - 1 implies s.skip(1)[j].0@ != p.0@ by {
            assert(s.skip(1)[j] == s[j + 1]);
        }
        assert(s.skip(1)[i - 1] == s[i]);
        lemma_attr_lookup_update(s.skip(1), i - 1, p);
        assert(s.update(i, p).skip(1) =~= s.skip(1).update(i - 1, p));
        assert(attr_lookup(s.update(i, p), p.0@) == attr_lookup(s.skip(1).update(i - 1, p), p.0@));
        assert forall|k2: Seq<char>| k2 != p.0@ implies attr_lookup(s.update(i, p), k2)
            == attr_lookup(s, k2) by {
            if s[0].0@ == k2 {
                assert(attr_lookup(s.update(i, p), k2) == Some(s[0].1@));
                assert(attr_lookup(s, k2) == Some(s[0].1@));
            } else {
                assert(attr_lookup(s.update(i, p), k2) == attr_lookup(
                    s.skip(1).update(i - 1, p),
                    k2,
                ));
                assert(attr_lookup(s, k2) == attr_lookup(s.skip(1), k2));
            }
        }
    }
}

/// The value bound to a key in an attribute list, if any.
pub fn attrs_get<'a>(attrs: &'a Vec<(String, String)>, key: &str) -> (r: Option<&'a String>)
    ensures
        match r {
            Some(v) => attr_lookup(attrs@, key@) == Some(v@),
            None => attr_lookup(attrs@, key@) is None,
        },
{
    let key_string = key.to_owned();
    let n = attrs.len();
    let mut i: usize = 0;
    while i < n
        invariant
            0 <= i <= n,
            n == attrs.len(),
            forall|j: int| 0 <= j < i ==> attrs@[j].0@ != key@,
            key_string@ == key@,
        decreases n - i,
    {
        if attrs[i].0 == key_string {
            proof {
                lemma_attr_lookup_skip(attrs@, i as int, key@);
            }
            return Some(&attrs[i].1);
        }
        i += 1;
    }
    proof {
        lemma_attr_lookup_skip(attrs@, n as int, key@);
    }
    None
}

/// Bind a key to a value in an attribute list, overwriting the binding the
/// key had.
pub fn attrs_set(attrs: &mut Vec<(String, String)>, key: &str, value: &str)
    ensures
        attr_lookup(final(attrs)@, key@) == Some(value@),
        forall|k2: Seq<char>| k2 != key@ ==> attr_lookup(final(attrs)@, k2) == attr_lookup(
            old(attrs)@,
            k2,
        ),
{
    let key_string = key.to_owned();
    let value_string = value.to_owned();
    let n = attrs.len();
    let mut i: usize = 0;
    while i < n
        invariant
            0 <= i <= n,
            n == attrs.len(),
            *attrs == *old(attrs),
            forall|j: int| 0 <= j < i ==> attrs@[j].0@ != key@,
            key_string@ == key@,
            value_string@ == value@,
        decreases n - i,
    {
        if attrs[i].0 == key_string {
            proof {
                lemma_attr_lookup_update(attrs@, i as int, (key_string, value_string));
            }
            attrs.set(i, (key_string, value_string));
            return ;
        }
        i += 1;
    }
    proof {
        lemma_attr_lookup_skip(attrs@.push((key_string, value_string)), n as int, key@);
        assert(attrs@.push((key_string, value_string)).skip(n as int) =~= seq![
            (key_string, value_string),
        ]);
        assert forall|k2: Seq<char>| k2 != key@ implies attr_lookup(
            attrs@.push((key_string, value_string)),
            k2,
        ) == attr_lookup(attrs@, k2) by {
            lemma_attr_lookup_push_other(attrs@, (key_string, value_string), k2);
        }
    }
    attrs.push((key_string, value_string));
}

/// Metadata that can be attached to any mythological entity.
#[derive(Debug, Clone, PartialEq)]
pub struct Metadata {
    /// When this entity was created in the ontology, in microseconds since
    /// the Unix epoch.
    pub created_at: i64,
    /// When this entity was last modified in the ontology, in microseconds
    /// since the Unix epoch.
    pub updated_at: i64,
    /// The sources of information for this entity.
    pub sources: Vec<Source>,
    /// Additional attributes that don't fit elsewhere; lookup takes the
    /// first pair with a matching key.
    pub attributes: Vec<(String, String)>,
    /// Confidence in the accuracy of this information, in thousandths of the
    /// unit interval; not validated.
    pub confidence: Option<i64>,
}

impl Metadata {
    /// Fresh metadata stamped with the current time.
    pub fn new() -> (r: Metadata)
        ensures
            r.created_at == r.updated_at,
            r.sources@ == Seq::<Source>::empty(),
            r.attributes@ == Seq::<(String, String)>::empty(),
            r.confidence is None,
    {
        let t = now_micros();
        Metadata {
            created_at: t,
            updated_at: t,
            sources: Vec::new(),
            attributes: Vec::new(),
            confidence: None,
        }
    }

    /// Append a source.
    pub fn add_source(&mut self, source: Source)
        ensures
            final(self).sources@ == old(self).sources@.push(source),
            final(self).created_at == old(self).created_at,
            final(self).updated_at == old(self).updated_at,
            final(self).attributes@ == old(self).attributes@,
            final(self).confidence == old(self).confidence,
    {
        self.sources.push(source);
    }

    /// Bind an attribute key to a value, overwriting the binding the key had.
    pub fn add_attribute(&mut self, key: &str, value: &str)
        ensures
            attr_lookup(final(self).attributes@, key@) == Some(value@),
            forall|k2: Seq<char>| k2 != key@ ==> attr_lookup(final(self).attributes@, k2)
                == attr_lookup(old(self).attributes@, k2),
            final(self).created_at == old(self).created_at,
            final(self).updated_at == old(self).updated_at,
            final(self).sources@ == old(self).sources@,
            final(self).confidence == old(self).confidence,
    {
        attrs_set(&mut self.attributes, key, value);
    }

    /// The value bound to a key, if any.
    pub fn get_attribute(&self, key: &str) -> (r: Option<&String>)
        ensures
            match r {
                Some(v) => attr_lookup(self.attributes@, key@) == Some(v@),
                None => attr_lookup(self.attributes@, key@) is None,
            },
    {
        attrs_get(&self.attributes, key)
    }

    /// Whether a key is bound.
    pub fn has_attribute(&self, key: &str) -> (r: bool)
        ensures
            r == (attr_lookup(self.attributes@, key@) is Some),
    {
        self.get_attribute(key).is_some()
    }

    /// Refresh the last-modified timestamp to the current time.
    pub fn update_timestamp(&mut self)
        ensures
            final(self).created_at == old(self).created_at,
            final(self).sources@ == old(self).sources@,
            final(self).attributes@ == old(self).attributes@,
            final(self).confidence == old(self).confidence,
    {
        self.updated_at = now_micros();
    }
}

impl Default for Metadata {
    /// Fresh metadata stamped with the current time.
    fn default() -> (r: Metadata)
        ensures
            r.created_at == r.updated_at,
            r.sources@ == Seq::<Source>::empty(),
            r.attributes@ == Seq::<(String, String)>::empty(),
            r.confidence is None,
    {
        Metadata::new()
    }
}

} // verus!
