use mythologic::entity::MythEntity;
use mythologic::entities::artifact::{Artifact, ArtifactType};
use mythologic::entities::concept::{Concept, ConceptType};
use mythologic::entities::creature::{Creature, CreatureType};
use mythologic::entities::deity::{Deity, DeityImportance, DeityName, Gender};
use mythologic::entities::hero::{Hero, HeroOrigin};
use mythologic::entities::location::{Location, LocationType};
use mythologic::cultural::culture::{Culture, TimePeriod};
use mythologic::cultural::era::MythologicalEra;
use mythologic::cultural::pantheon::Pantheon;
use mythologic::cultural::region::MythologicalRegion;
use mythologic::ids::MythId;
use mythologic::names::{NameId, CultureId};

#[test]
fn deity_setters_fill_the_profile() {
    let mut zeus = Deity::new("Zeus", "King of the Olympian gods", "Greek");
    zeus.add_domain("Sky");
    zeus.add_domain("Thunder");
    zeus.add_domain("Sky");
    zeus.add_alternative_name("Jupiter");
    zeus.set_gender(Gender::Male);
    zeus.set_importance(DeityImportance::Supreme);
    zeus.set_pantheon("Olympian");

    assert_eq!(zeus.domains().len(), 2);
    assert_eq!(zeus.alternative_names().len(), 1);
    assert_eq!(zeus.alternative_names()[0].value(), "Jupiter");
    assert_eq!(zeus.gender, Gender::Male);
    assert_eq!(zeus.importance, DeityImportance::Supreme);
    assert_eq!(zeus.pantheon().unwrap().value(), "Olympian");
    assert_eq!(zeus.culture().value(), "Greek");
}

#[test]
fn deity_name_wraps_a_string() {
    let epithet = DeityName::new("The Thunderer");
    assert_eq!(epithet.value(), "The Thunderer");
}

#[test]
fn relationship_lists_register_and_forget() {
    let mut hero = Hero::new("Heracles", "Strongest of heroes", "Greek");
    let a = MythId::new();
    let b = MythId::new();
    hero.add_relationship(a);
    hero.add_relationship(b);
    hero.add_relationship(a);
    assert_eq!(hero.relationships.len(), 3);

    assert!(hero.remove_relationship(&a));
    assert_eq!(hero.relationships.len(), 1);
    assert_eq!(hero.relationships[0], b);
    assert!(!hero.remove_relationship(&a));
}

#[test]
fn hero_profile_accumulates() {
    let mut hero = Hero::new("Perseus", "Slew Medusa", "Greek");
    hero.set_origin(HeroOrigin::Demigod);
    hero.add_achievement("Beheaded Medusa");
    hero.add_achievement("Rescued Andromeda");
    assert_eq!(*hero.origin(), HeroOrigin::Demigod);
    assert_eq!(hero.achievements().len(), 2);
    assert_eq!(hero.achievements()[0], "Beheaded Medusa");
}

#[test]
fn creature_profile_accumulates() {
    let mut medusa = Creature::new("Medusa", "A gorgon", "Greek");
    medusa.set_creature_type(CreatureType::Monster);
    medusa.add_habitat("Island of Sarpedon");
    medusa.add_habitat("Island of Sarpedon");
    medusa.add_ability("Petrifying gaze");
    assert_eq!(*medusa.creature_type(), CreatureType::Monster);
    assert_eq!(medusa.habitats().len(), 1);
    assert_eq!(medusa.abilities().len(), 1);
}

#[test]
fn artifact_profile_accumulates() {
    let mut hammer = Artifact::new("Mjolnir", "Hammer of Thor", "Norse");
    hammer.set_artifact_type(ArtifactType::Weapon);
    hammer.set_creator("Brokkr and Sindri");
    hammer.set_owner("Thor");
    hammer.add_power("Returns when thrown");
    assert_eq!(*hammer.artifact_type(), ArtifactType::Weapon);
    assert_eq!(hammer.creator().unwrap(), "Brokkr and Sindri");
    assert_eq!(hammer.owner().unwrap(), "Thor");
    assert_eq!(hammer.powers().len(), 1);
}

#[test]
fn location_profile_accumulates() {
    let mut olympus = Location::new("Olympus", "Home of the gods", "Greek");
    olympus.set_location_type(LocationType::Mountain);
    olympus.add_characteristic("Always clear skies");
    olympus.add_accessibility("By divine invitation");
    assert_eq!(*olympus.location_type(), LocationType::Mountain);
    assert_eq!(olympus.characteristics().len(), 1);
    assert_eq!(olympus.accessibility().len(), 1);
}

#[test]
fn concept_profile_accumulates() {
    let mut fate = Concept::new("Fate", "The inevitable", "Greek");
    fate.set_concept_type(ConceptType::Fate);
    fate.add_manifestation("The three Moirai");
    assert_eq!(*fate.concept_type(), ConceptType::Fate);
    assert_eq!(fate.manifestations().len(), 1);
}

#[test]
fn culture_profile_accumulates() {
    let mut greek = Culture::new("Greek", "Ancient Greek culture");
    greek.add_region("Peloponnese");
    greek.add_region("Peloponnese");
    greek.add_language("Ancient Greek");
    greek.add_influence("Minoan civilization");
    greek.add_time_period(TimePeriod {
        name: "Archaic".to_string(),
        start_year: Some(-800),
        end_year: Some(-480),
        description: None,
    });
    assert_eq!(greek.regions().len(), 1);
    assert_eq!(greek.languages().len(), 1);
    assert_eq!(greek.influences().len(), 1);
    assert_eq!(greek.time_periods().len(), 1);
    assert_eq!(greek.time_periods()[0].start_year, Some(-800));
}

#[test]
fn pantheon_tracks_its_deities() {
    let mut olympian = Pantheon::new("Olympian", "The principal Greek deities", "Greek");
    let zeus = MythId::new();
    let hestia = MythId::new();
    let stranger = MythId::new();
    olympian.add_primary_deity(zeus);
    olympian.add_primary_deity(zeus);
    olympian.add_secondary_deity(hestia);
    olympian.set_cosmology("Three realms drawn by lot");

    assert_eq!(olympian.primary_deities().len(), 1);
    assert_eq!(olympian.secondary_deities().len(), 1);
    assert!(olympian.contains_deity(&zeus));
    assert!(olympian.contains_deity(&hestia));
    assert!(!olympian.contains_deity(&stranger));
    assert_eq!(olympian.cosmology().unwrap(), "Three realms drawn by lot");
    assert_eq!(olympian.culture().value(), "Greek");
}

#[test]
fn era_profile_accumulates() {
    let mut golden = MythologicalEra::new("Golden Age", "The age of Kronos", "Greek");
    golden.set_sequence_order(1);
    golden.add_characteristic("No toil or grief");
    golden.set_end_event("The rise of Zeus");
    assert_eq!(golden.sequence_order(), Some(1));
    assert_eq!(golden.characteristics().len(), 1);
    assert_eq!(golden.end_event().unwrap(), "The rise of Zeus");
}

#[test]
fn region_profile_accumulates() {
    let mut underworld = MythologicalRegion::new(
        "Underworld",
        "The realm of the dead",
        "Destination of souls",
    );
    underworld.add_culture("Greek");
    underworld.add_culture("Greek");
    underworld.add_feature("River Styx");
    underworld.add_modern_location("None");
    assert_eq!(underworld.cultures().len(), 1);
    assert_eq!(underworld.features().len(), 1);
    assert_eq!(underworld.modern_locations().len(), 1);
    assert_eq!(underworld.significance(), "Destination of souls");
}

#[test]
fn entity_surface_is_uniform_across_kinds() {
    let culture = Culture::new("Norse", "The Norse tradition");
    let culture_id = culture.id;
    let e = MythEntity::Culture(culture);
    assert_eq!(*e.id(), culture_id);
    assert_eq!(e.name(), "Norse");
    assert_eq!(e.entity_type(), "Culture");
    assert!(e.culture().is_none());
    assert!(e.relationships().is_empty());

    let pantheon = Pantheon::new("Aesir", "The principal Norse deities", "Norse");
    let p = MythEntity::Pantheon(pantheon);
    assert_eq!(p.entity_type(), "Pantheon");
    assert_eq!(p.culture_name().unwrap(), "Norse");

    let mut era = MythologicalEra::new("Ragnarok", "The end of the world", "Norse");
    let rel = MythId::new();
    era.add_relationship(rel);
    let r = MythEntity::MythologicalEra(era);
    assert_eq!(r.relationships(), vec![rel]);
}

#[test]
fn name_ids_round_trip_their_text() {
    let c: CultureId = NameId::new("Greek");
    assert_eq!(c.value(), "Greek");
    assert_eq!(c, CultureId::new("Greek"));
    let d = mythologic::names::DomainId::new("Thunder");
    assert_eq!(d.value(), "Thunder");
    let p = mythologic::names::PantheonId::new("Olympian");
    assert_eq!(NameId::value(&p), "Olympian");
}
