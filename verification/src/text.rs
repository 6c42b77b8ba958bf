//! Character-sequence predicates used across the library, and trusted
//! wrappers for the two `str` operations vstd leaves unspecified.

use vstd::prelude::*;

verus! {

/// What `str::to_lowercase` returns on a given string: Unicode lowercasing
/// is a pure function of the characters alone.
pub uninterp spec fn lower_of(s: Seq<char>) -> Seq<char>;

/// `needle` occurs as a contiguous run inside `hay`.
pub open spec fn seq_contains(hay: Seq<char>, needle: Seq<char>) -> bool {
    exists|i: int|
        0 <= i && i + needle.len() <= hay.len() && #[trigger] hay.subrange(i, i + needle.len())
            == needle
}

/// `a` precedes `b`, or equals it, in lexicographic order of the character
/// sequences.
pub open spec fn lex_le(a: Seq<char>, b: Seq<char>) -> bool
    decreases a.len(),
{
    if a.len() == 0 {
        true
    } else if b.len() == 0 {
        false
    } else if a[0] != b[0] {
        (a[0] as int) < (b[0] as int)
    } else {
        lex_le(a.skip(1), b.skip(1))
    }
}

/// Any two character sequences are ordered one way or the other.
pub proof fn lemma_lex_le_total(a: Seq<char>, b: Seq<char>)
    ensures
        lex_le(a, b) || lex_le(b, a),
    decreases a.len(),
{
    if a.len() != 0 && b.len() != 0 {
        if a[0] == b[0] {
            lemma_lex_le_total(a.skip(1), b.skip(1));
        } else {
            assert(a[0] as int != b[0] as int);
        }
    }
}

/// Lexicographic order is transitive.
pub proof fn lemma_lex_le_trans(a: Seq<char>, b: Seq<char>, c: Seq<char>)
    requires
        lex_le(a, b),
        lex_le(b, c),
    ensures
        lex_le(a, c),
    decreases a.len(),
{
    if a.len() != 0 && b.len() != 0 && c.len() != 0 && a[0] == b[0] && b[0] == c[0] {
        lemma_lex_le_trans(a.skip(1), b.skip(1), c.skip(1));
    }
}

/// Some element of the sequence views as the given character sequence.
pub open spec fn seq_has_view<T: View<V = Seq<char>>>(s: Seq<T>, x: Seq<char>) -> bool {
    exists|i: int| 0 <= i < s.len() && #[trigger] s[i]@ == x
}

/// Insert a string into a list unless an equal one is already there, so that
/// each string occurs at most once.
pub fn insert_unique_string(v: &mut Vec<String>, x: &str)
    ensures
        seq_has_view(old(v)@, x@) ==> final(v)@ == old(v)@,
        !seq_has_view(old(v)@, x@) ==> final(v)@.len() == old(v)@.len() + 1
            && final(v)@.subrange(0, old(v)@.len() as int) == old(v)@
            && final(v)@.last()@ == x@,
{
    let x_string = x.to_owned();
    let n = v.len();
    let mut i: usize = 0;
    while i < n
        invariant
            0 <= i <= n,
            n == v.len(),
            *v == *old(v),
            x_string@ == x@,
            forall|j: int| 0 <= j < i ==> v@[j]@ != x@,
        decreases n - i,
    {
        if v[i] == x_string {
            assert(seq_has_view(v@, x@));
            return ;
        }
        i += 1;
    }
    assert(!seq_has_view(v@, x@));
    v.push(x_string);
    proof {
        assert(final(v)@.subrange(0, old(v)@.len() as int) =~= old(v)@);
    }
}

/// Relies on `str::to_lowercase`: the result depends on the characters
/// alone, named by `lower_of`.
#[verifier::external_body]
pub fn lowercase(s: &str) -> (r: String)
    ensures
        r@ == lower_of(s@),
{
    s.to_lowercase()
}

/// Relies on `str::contains` with a `&str` pattern: true exactly when the
/// pattern occurs as a substring.
#[verifier::external_body]
pub fn contains_str(hay: &str, needle: &str) -> (r: bool)
    ensures
        r == seq_contains(hay@, needle@),
{
    hay.contains(needle)
}

/// Relies on `str`'s `PartialOrd`: byte-wise comparison of UTF-8, which
/// orders strings exactly as their character sequences order
/// lexicographically.
#[verifier::external_body]
pub fn str_le(a: &str, b: &str) -> (r: bool)
    ensures
        r == lex_le(a@, b@),
{
    a <= b
}

} // verus!
