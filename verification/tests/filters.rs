use mythologic::entity::MythEntity;
use mythologic::entities::deity::Deity;
use mythologic::ids::MythId;
use mythologic::names::CultureId;
use mythologic::query::filters::QueryFilter;
use mythologic::relationships::relationship::{Relationship, RelationshipType};

fn zeus() -> MythEntity {
    MythEntity::Deity(Deity::new("Zeus", "King of the Olympian gods", "Greek"))
}

#[test]
fn entity_type_filter_matches_the_tag_exactly() {
    let e = zeus();
    assert!(QueryFilter::EntityType("Deity".to_string()).matches(&e));
    assert!(!QueryFilter::EntityType("Hero".to_string()).matches(&e));
    assert!(!QueryFilter::EntityType("deity".to_string()).matches(&e));
}

#[test]
fn name_filter_is_case_insensitive_substring() {
    let e = zeus();
    assert!(QueryFilter::NameContains("zeus".to_string()).matches(&e));
    assert!(QueryFilter::NameContains("ZEUS".to_string()).matches(&e));
    assert!(QueryFilter::NameContains("eu".to_string()).matches(&e));
    assert!(QueryFilter::NameContains("".to_string()).matches(&e));
    assert!(!QueryFilter::NameContains("odin".to_string()).matches(&e));
}

#[test]
fn culture_filter_compares_culture_names() {
    let e = zeus();
    assert!(QueryFilter::Culture(CultureId::new("Greek")).matches(&e));
    assert!(!QueryFilter::Culture(CultureId::new("Norse")).matches(&e));
}

#[test]
fn culture_filter_misses_entities_without_a_culture() {
    let rel = Relationship::new(
        "Bond",
        "A bond",
        MythId::new(),
        MythId::new(),
        RelationshipType::Family,
    );
    let e = MythEntity::Relationship(rel);
    assert!(!QueryFilter::Culture(CultureId::new("Greek")).matches(&e));
}

#[test]
fn attribute_filters_read_the_metadata() {
    let mut deity = Deity::new("Zeus", "King of the Olympian gods", "Greek");
    deity.metadata.add_attribute("weapon", "thunderbolt");
    let e = MythEntity::Deity(deity);

    assert!(QueryFilter::HasAttribute("weapon".to_string()).matches(&e));
    assert!(!QueryFilter::HasAttribute("steed".to_string()).matches(&e));
    assert!(
        QueryFilter::AttributeEquals("weapon".to_string(), "thunderbolt".to_string()).matches(&e)
    );
    assert!(!QueryFilter::AttributeEquals("weapon".to_string(), "hammer".to_string()).matches(&e));
    assert!(!QueryFilter::AttributeEquals("steed".to_string(), "thunderbolt".to_string()).matches(&e));
}

#[test]
fn boolean_combinators_follow_boolean_algebra() {
    let e = zeus();
    let deity = QueryFilter::EntityType("Deity".to_string());
    let hero = QueryFilter::EntityType("Hero".to_string());
    let greek = QueryFilter::Culture(CultureId::new("Greek"));

    assert!(deity.matches(&e) && greek.matches(&e));
    assert!(QueryFilter::And(Box::new(deity), Box::new(greek)).matches(&e));

    let deity = QueryFilter::EntityType("Deity".to_string());
    let hero2 = QueryFilter::EntityType("Hero".to_string());
    assert!(!QueryFilter::And(Box::new(deity), Box::new(hero2)).matches(&e));

    let deity = QueryFilter::EntityType("Deity".to_string());
    assert!(QueryFilter::Or(Box::new(hero), Box::new(deity)).matches(&e));

    let hero = QueryFilter::EntityType("Hero".to_string());
    let hero_again = QueryFilter::EntityType("Hero".to_string());
    assert!(!QueryFilter::Or(Box::new(hero), Box::new(hero_again)).matches(&e));

    let deity = QueryFilter::EntityType("Deity".to_string());
    assert!(!QueryFilter::Not(Box::new(deity)).matches(&e));

    let deity = QueryFilter::EntityType("Deity".to_string());
    let double_negation = QueryFilter::Not(Box::new(QueryFilter::Not(Box::new(deity))));
    assert!(double_negation.matches(&e));
}

#[test]
fn combinator_methods_build_the_same_filters() {
    let e = zeus();
    let both = QueryFilter::EntityType("Deity".to_string())
        .and(QueryFilter::NameContains("zeu".to_string()));
    assert!(both.matches(&e));

    let either = QueryFilter::EntityType("Hero".to_string())
        .or(QueryFilter::Culture(CultureId::new("Greek")));
    assert!(either.matches(&e));

    let negated = QueryFilter::EntityType("Hero".to_string()).not();
    assert!(negated.matches(&e));
}
