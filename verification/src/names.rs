//! Type-safe, name-based identifiers: newtypes over `String` that make
//! references between entities carry their intent (a culture, a pantheon, a
//! domain of influence, ...) instead of being bare strings.

use vstd::prelude::*;
use crate::text::seq_has_view;

verus! {

/// Common interface of all name-based identifiers: each wraps one string,
/// viewed as its character sequence.
pub trait NameId: Sized + View<V = Seq<char>> {
    /// Wrap a string in this identifier type.
    fn new(name: &str) -> (r: Self)
        ensures
            r@ == name@,
    ;

    /// The inner string value.
    fn value(&self) -> (r: &str)
        ensures
            r@ == self@,
    ;
}

/// Insert a name into a list of identifiers unless one with the same text is
/// already there, so that each name occurs at most once.
pub fn insert_unique_name<T: NameId>(v: &mut Vec<T>, name: &str)
    ensures
        seq_has_view(old(v)@, name@) ==> final(v)@ == old(v)@,
        !seq_has_view(old(v)@, name@) ==> final(v)@.len() == old(v)@.len() + 1
            && final(v)@.subrange(0, old(v)@.len() as int) == old(v)@
            && final(v)@.last()@ == name@,
{
    let name_string = name.to_owned();
    let n = v.len();
    let mut i: usize = 0;
    while i < n
        invariant
            0 <= i <= n,
            n == v.len(),
            *v == *old(v),
            name_string@ == name@,
            forall|j: int| 0 <= j < i ==> v@[j]@ != name@,
        decreases n - i,
    {
        if v[i].value().to_owned() == name_string {
            assert(seq_has_view(v@, name@));
            return ;
        }
        i += 1;
    }
    assert(!seq_has_view(v@, name@));
    v.push(T::new(name));
    proof {
        assert(final(v)@.subrange(0, old(v)@.len() as int) =~= old(v)@);
    }
}

/// A cultural context in mythology (e.g. "Greek", "Norse", "Egyptian").
#[derive(Debug, Clone)]
pub struct CultureId(pub String);

impl View for CultureId {
    type V = Seq<char>;

    open spec fn view(&self) -> Seq<char> {
        self.0@
    }
}

impl CultureId {
    /// Wrap a culture name.
    pub fn new(name: &str) -> (r: CultureId)
        ensures
            r@ == name@,
    {
        CultureId(name.to_owned())
    }

    /// The inner string value.
    pub fn value(&self) -> (r: &str)
        ensures
            r@ == self@,
    {
        self.0.as_str()
    }
}

impl NameId for CultureId {
    fn new(name: &str) -> (r: CultureId) {
        CultureId::new(name)
    }

    fn value(&self) -> (r: &str) {
        CultureId::value(self)
    }
}

impl PartialEq for CultureId {
    /// Two culture identifiers are equal when their names are.
    fn eq(&self, other: &CultureId) -> (r: bool) {
        self.0 == other.0
    }
}

impl vstd::std_specs::cmp::PartialEqSpecImpl for CultureId {
    open spec fn obeys_eq_spec() -> bool {
        true
    }

    open spec fn eq_spec(&self, other: &CultureId) -> bool {
        self@ == other@
    }
}


/// A geographical region of mythological significance (e.g. "Mount Olympus", "Asgard").
#[derive(Debug, Clone)]
pub struct RegionId(pub String);

impl View for RegionId {
    type V = Seq<char>;

    open spec fn view(&self) -> Seq<char> {
        self.0@
    }
}

impl RegionId {
    /// Wrap a name.
    pub fn new(name: &str) -> (r: RegionId)
        ensures
            r@ == name@,
    {
        RegionId(name.to_owned())
    }

    /// The inner string value.
    pub fn value(&self) -> (r: &str)
        ensures
            r@ == self@,
    {
        self.0.as_str()
    }
}

impl NameId for RegionId {
    fn new(name: &str) -> (r: RegionId) {
        RegionId::new(name)
    }

    fn value(&self) -> (r: &str) {
        RegionId::value(self)
    }
}

/// A historical era in mythological chronology (e.g. "Golden Age", "Age of Heroes").
#[derive(Debug, Clone)]
pub struct EraId(pub String);

impl View for EraId {
    type V = Seq<char>;

    open spec fn view(&self) -> Seq<char> {
        self.0@
    }
}

impl EraId {
    /// Wrap a name.
    pub fn new(name: &str) -> (r: EraId)
        ensures
            r@ == name@,
    {
        EraId(name.to_owned())
    }

    /// The inner string value.
    pub fn value(&self) -> (r: &str)
        ensures
            r@ == self@,
    {
        self.0.as_str()
    }
}

impl NameId for EraId {
    fn new(name: &str) -> (r: EraId) {
        EraId::new(name)
    }

    fn value(&self) -> (r: &str) {
        EraId::value(self)
    }
}

/// A pantheon: a coherent group of deities (e.g. "Olympian", "Aesir").
#[derive(Debug, Clone)]
pub struct PantheonId(pub String);

impl View for PantheonId {
    type V = Seq<char>;

    open spec fn view(&self) -> Seq<char> {
        self.0@
    }
}

impl PantheonId {
    /// Wrap a name.
    pub fn new(name: &str) -> (r: PantheonId)
        ensures
            r@ == name@,
    {
        PantheonId(name.to_owned())
    }

    /// The inner string value.
    pub fn value(&self) -> (r: &str)
        ensures
            r@ == self@,
    {
        self.0.as_str()
    }
}

impl NameId for PantheonId {
    fn new(name: &str) -> (r: PantheonId) {
        PantheonId::new(name)
    }

    fn value(&self) -> (r: &str) {
        PantheonId::value(self)
    }
}

/// A language associated with mythological narratives (e.g. "Ancient Greek", "Old Norse").
#[derive(Debug, Clone)]
pub struct LanguageId(pub String);

impl View for LanguageId {
    type V = Seq<char>;

    open spec fn view(&self) -> Seq<char> {
        self.0@
    }
}

impl LanguageId {
    /// Wrap a name.
    pub fn new(name: &str) -> (r: LanguageId)
        ensures
            r@ == name@,
    {
        LanguageId(name.to_owned())
    }

    /// The inner string value.
    pub fn value(&self) -> (r: &str)
        ensures
            r@ == self@,
    {
        self.0.as_str()
    }
}

impl NameId for LanguageId {
    fn new(name: &str) -> (r: LanguageId) {
        LanguageId::new(name)
    }

    fn value(&self) -> (r: &str) {
        LanguageId::value(self)
    }
}

/// A cosmological framework explaining the structure of the universe (e.g. "Norse World Tree").
#[derive(Debug, Clone)]
pub struct CosmologyId(pub String);

impl View for CosmologyId {
    type V = Seq<char>;

    open spec fn view(&self) -> Seq<char> {
        self.0@
    }
}

impl CosmologyId {
    /// Wrap a name.
    pub fn new(name: &str) -> (r: CosmologyId)
        ensures
            r@ == name@,
    {
        CosmologyId(name.to_owned())
    }

    /// The inner string value.
    pub fn value(&self) -> (r: &str)
        ensures
            r@ == self@,
    {
        self.0.as_str()
    }
}

impl NameId for CosmologyId {
    fn new(name: &str) -> (r: CosmologyId) {
        CosmologyId::new(name)
    }

    fn value(&self) -> (r: &str) {
        CosmologyId::value(self)
    }
}

/// A god or goddess referenced by name (e.g. "Zeus", "Odin", "Ra").
#[derive(Debug, Clone)]
pub struct DeityId(pub String);

impl View for DeityId {
    type V = Seq<char>;

    open spec fn view(&self) -> Seq<char> {
        self.0@
    }
}

impl DeityId {
    /// Wrap a name.
    pub fn new(name: &str) -> (r: DeityId)
        ensures
            r@ == name@,
    {
        DeityId(name.to_owned())
    }

    /// The inner string value.
    pub fn value(&self) -> (r: &str)
        ensures
            r@ == self@,
    {
        self.0.as_str()
    }
}

impl NameId for DeityId {
    fn new(name: &str) -> (r: DeityId) {
        DeityId::new(name)
    }

    fn value(&self) -> (r: &str) {
        DeityId::value(self)
    }
}

/// A heroic figure referenced by name (e.g. "Hercules", "Beowulf").
#[derive(Debug, Clone)]
pub struct HeroId(pub String);

impl View for HeroId {
    type V = Seq<char>;

    open spec fn view(&self) -> Seq<char> {
        self.0@
    }
}

impl HeroId {
    /// Wrap a name.
    pub fn new(name: &str) -> (r: HeroId)
        ensures
            r@ == name@,
    {
        HeroId(name.to_owned())
    }

    /// The inner string value.
    pub fn value(&self) -> (r: &str)
        ensures
            r@ == self@,
    {
        self.0.as_str()
    }
}

impl NameId for HeroId {
    fn new(name: &str) -> (r: HeroId) {
        HeroId::new(name)
    }

    fn value(&self) -> (r: &str) {
        HeroId::value(self)
    }
}

/// A mythological creature referenced by name (e.g. "Minotaur", "Phoenix").
#[derive(Debug, Clone)]
pub struct CreatureId(pub String);

impl View for CreatureId {
    type V = Seq<char>;

    open spec fn view(&self) -> Seq<char> {
        self.0@
    }
}

impl CreatureId {
    /// Wrap a name.
    pub fn new(name: &str) -> (r: CreatureId)
        ensures
            r@ == name@,
    {
        CreatureId(name.to_owned())
    }

    /// The inner string value.
    pub fn value(&self) -> (r: &str)
        ensures
            r@ == self@,
    {
        self.0.as_str()
    }
}

impl NameId for CreatureId {
    fn new(name: &str) -> (r: CreatureId) {
        CreatureId::new(name)
    }

    fn value(&self) -> (r: &str) {
        CreatureId::value(self)
    }
}

/// A mythological object referenced by name (e.g. "Excalibur", "Mjolnir").
#[derive(Debug, Clone)]
pub struct ArtifactId(pub String);

impl View for ArtifactId {
    type V = Seq<char>;

    open spec fn view(&self) -> Seq<char> {
        self.0@
    }
}

impl ArtifactId {
    /// Wrap a name.
    pub fn new(name: &str) -> (r: ArtifactId)
        ensures
            r@ == name@,
    {
        ArtifactId(name.to_owned())
    }

    /// The inner string value.
    pub fn value(&self) -> (r: &str)
        ensures
            r@ == self@,
    {
        self.0.as_str()
    }
}

impl NameId for ArtifactId {
    fn new(name: &str) -> (r: ArtifactId) {
        ArtifactId::new(name)
    }

    fn value(&self) -> (r: &str) {
        ArtifactId::value(self)
    }
}

/// A mythologically significant place referenced by name (e.g. "Olympus", "Valhalla").
#[derive(Debug, Clone)]
pub struct LocationId(pub String);

impl View for LocationId {
    type V = Seq<char>;

    open spec fn view(&self) -> Seq<char> {
        self.0@
    }
}

impl LocationId {
    /// Wrap a name.
    pub fn new(name: &str) -> (r: LocationId)
        ensures
            r@ == name@,
    {
        LocationId(name.to_owned())
    }

    /// The inner string value.
    pub fn value(&self) -> (r: &str)
        ensures
            r@ == self@,
    {
        self.0.as_str()
    }
}

impl NameId for LocationId {
    fn new(name: &str) -> (r: LocationId) {
        LocationId::new(name)
    }

    fn value(&self) -> (r: &str) {
        LocationId::value(self)
    }
}

/// An abstract idea or principle referenced by name (e.g. "Fate", "Justice").
#[derive(Debug, Clone)]
pub struct ConceptId(pub String);

impl View for ConceptId {
    type V = Seq<char>;

    open spec fn view(&self) -> Seq<char> {
        self.0@
    }
}

impl ConceptId {
    /// Wrap a name.
    pub fn new(name: &str) -> (r: ConceptId)
        ensures
            r@ == name@,
    {
        ConceptId(name.to_owned())
    }

    /// The inner string value.
    pub fn value(&self) -> (r: &str)
        ensures
            r@ == self@,
    {
        self.0.as_str()
    }
}

impl NameId for ConceptId {
    fn new(name: &str) -> (r: ConceptId) {
        ConceptId::new(name)
    }

    fn value(&self) -> (r: &str) {
        ConceptId::value(self)
    }
}

/// An area of power or influence (e.g. "Thunder", "Love", "Death").
#[derive(Debug, Clone)]
pub struct DomainId(pub String);

impl View for DomainId {
    type V = Seq<char>;

    open spec fn view(&self) -> Seq<char> {
        self.0@
    }
}

impl DomainId {
    /// Wrap a name.
    pub fn new(name: &str) -> (r: DomainId)
        ensures
            r@ == name@,
    {
        DomainId(name.to_owned())
    }

    /// The inner string value.
    pub fn value(&self) -> (r: &str)
        ensures
            r@ == self@,
    {
        self.0.as_str()
    }
}

impl NameId for DomainId {
    fn new(name: &str) -> (r: DomainId) {
        DomainId::new(name)
    }

    fn value(&self) -> (r: &str) {
        DomainId::value(self)
    }
}

/// A geographic characteristic with mythological significance (e.g. "Mountain", "River").
#[derive(Debug, Clone)]
pub struct FeatureId(pub String);

impl View for FeatureId {
    type V = Seq<char>;

    open spec fn view(&self) -> Seq<char> {
        self.0@
    }
}

impl FeatureId {
    /// Wrap a name.
    pub fn new(name: &str) -> (r: FeatureId)
        ensures
            r@ == name@,
    {
        FeatureId(name.to_owned())
    }

    /// The inner string value.
    pub fn value(&self) -> (r: &str)
        ensures
            r@ == self@,
    {
        self.0.as_str()
    }
}

impl NameId for FeatureId {
    fn new(name: &str) -> (r: FeatureId) {
        FeatureId::new(name)
    }

    fn value(&self) -> (r: &str) {
        FeatureId::value(self)
    }
}

/// A trait or quality associated with mythological entities (e.g. "Wisdom", "Strength").
#[derive(Debug, Clone)]
pub struct CharacteristicId(pub String);

impl View for CharacteristicId {
    type V = Seq<char>;

    open spec fn view(&self) -> Seq<char> {
        self.0@
    }
}

impl CharacteristicId {
    /// Wrap a name.
    pub fn new(name: &str) -> (r: CharacteristicId)
        ensures
            r@ == name@,
    {
        CharacteristicId(name.to_owned())
    }

    /// The inner string value.
    pub fn value(&self) -> (r: &str)
        ensures
            r@ == self@,
    {
        self.0.as_str()
    }
}

impl NameId for CharacteristicId {
    fn new(name: &str) -> (r: CharacteristicId) {
        CharacteristicId::new(name)
    }

    fn value(&self) -> (r: &str) {
        CharacteristicId::value(self)
    }
}

/// A significant occurrence in mythological narratives (e.g. "Trojan War", "Ragnarok").
#[derive(Debug, Clone)]
pub struct EventId(pub String);

impl View for EventId {
    type V = Seq<char>;

    open spec fn view(&self) -> Seq<char> {
        self.0@
    }
}

impl EventId {
    /// Wrap a name.
    pub fn new(name: &str) -> (r: EventId)
        ensures
            r@ == name@,
    {
        EventId(name.to_owned())
    }

    /// The inner string value.
    pub fn value(&self) -> (r: &str)
        ensures
            r@ == self@,
    {
        self.0.as_str()
    }
}

impl NameId for EventId {
    fn new(name: &str) -> (r: EventId) {
        EventId::new(name)
    }

    fn value(&self) -> (r: &str) {
        EventId::value(self)
    }
}

} // verus!
