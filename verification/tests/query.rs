use mythologic::entity::MythEntity;
use mythologic::entities::deity::Deity;
use mythologic::entities::hero::Hero;
use mythologic::ids::MythId;
use mythologic::names::CultureId;
use mythologic::ontology::MythOntology;
use mythologic::query::engine::QueryEngine;
use mythologic::query::filters::QueryFilter;
use mythologic::relationships::family::{FamilyRelationship, FamilyRelationshipType};

fn two_deity_store() -> (MythOntology, MythId, MythId) {
    let mut ontology = MythOntology::new();
    let zeus = Deity::new("Zeus", "King of the Olympian gods", "Greek");
    let odin = Deity::new("Odin", "All-Father of the Aesir", "Norse");
    let zeus_id = zeus.id;
    let odin_id = odin.id;
    ontology.add_entity(MythEntity::Deity(zeus));
    ontology.add_entity(MythEntity::Deity(odin));
    (ontology, zeus_id, odin_id)
}

#[test]
fn empty_filter_list_returns_every_entity_once() {
    let (ontology, zeus_id, odin_id) = two_deity_store();
    let engine = QueryEngine::new(&ontology);
    let rs = engine.query(&[]);
    assert_eq!(rs.count(), 2);
    let ids = rs.entity_ids();
    assert!(ids.contains(&zeus_id));
    assert!(ids.contains(&odin_id));
    assert_ne!(ids[0], ids[1]);
}

#[test]
fn culture_query_returns_exactly_the_matching_deity() {
    let (ontology, zeus_id, _) = two_deity_store();
    let engine = QueryEngine::new(&ontology);
    let rs = engine.query(&[QueryFilter::Culture(CultureId::new("Greek"))]);
    assert_eq!(rs.count(), 1);
    let only = rs.first().unwrap();
    assert_eq!(only.name, "Zeus");
    assert_eq!(only.id, zeus_id);
    assert_eq!(only.entity_type, "Deity");
}

#[test]
fn query_applies_every_filter_in_the_list() {
    let (ontology, _, odin_id) = two_deity_store();
    let engine = QueryEngine::new(&ontology);
    let rs = engine.query(&[
        QueryFilter::EntityType("Deity".to_string()),
        QueryFilter::NameContains("od".to_string()),
    ]);
    assert_eq!(rs.count(), 1);
    assert_eq!(rs.first().unwrap().id, odin_id);

    let none = engine.query(&[
        QueryFilter::EntityType("Hero".to_string()),
        QueryFilter::NameContains("od".to_string()),
    ]);
    assert!(none.is_empty());
}

#[test]
fn find_by_name_is_case_insensitive_and_partial() {
    let (ontology, zeus_id, _) = two_deity_store();
    let engine = QueryEngine::new(&ontology);

    let partial = engine.find_by_name("zeu");
    assert_eq!(partial.count(), 1);
    assert_eq!(partial.first().unwrap().id, zeus_id);

    let shouted = engine.find_by_name("ZEUS");
    assert_eq!(shouted.count(), 1);
    assert_eq!(shouted.first().unwrap().id, zeus_id);

    assert!(engine.find_by_name("loki").is_empty());
}

#[test]
fn find_by_type_scans_the_tags() {
    let (mut ontology, _, _) = two_deity_store();
    ontology.add_entity(MythEntity::Hero(Hero::new("Sigurd", "Dragon slayer", "Norse")));
    let engine = QueryEngine::new(&ontology);
    assert_eq!(engine.find_by_type("Deity").count(), 2);
    assert_eq!(engine.find_by_type("Hero").count(), 1);
    assert_eq!(engine.find_by_type("Creature").count(), 0);
}

#[test]
fn find_related_resolves_one_hop_and_skips_dangling() {
    let mut ontology = MythOntology::new();
    let mut zeus = Deity::new("Zeus", "King of the Olympian gods", "Greek");
    let hera = Deity::new("Hera", "Queen of the Olympian gods", "Greek");
    let zeus_id = zeus.id;
    let hera_id = hera.id;

    let marriage = FamilyRelationship::new(
        "Marriage",
        "Zeus married Hera",
        zeus_id,
        hera_id,
        FamilyRelationshipType::Spouse,
    );
    let marriage_id = marriage.relationship.id;
    let dangling = MythId::new();

    zeus.add_relationship(marriage_id);
    zeus.add_relationship(marriage_id);
    zeus.add_relationship(dangling);

    ontology.add_entity(MythEntity::Deity(zeus));
    ontology.add_entity(MythEntity::Deity(hera));
    ontology.add_entity(MythEntity::FamilyRelationship(marriage));

    let engine = QueryEngine::new(&ontology);
    let related = engine.find_related(&zeus_id);
    assert_eq!(related.count(), 1);
    assert_eq!(related.first().unwrap().id, marriage_id);
    assert_eq!(related.first().unwrap().entity_type, "FamilyRelationship");

    let nobody = MythId::new();
    assert!(engine.find_related(&nobody).is_empty());
}

#[test]
fn find_related_keeps_first_occurrence_order() {
    let mut ontology = MythOntology::new();
    let mut zeus = Deity::new("Zeus", "King of the Olympian gods", "Greek");
    let zeus_id = zeus.id;

    let mut bond_ids: Vec<MythId> = Vec::new();
    for (name, target) in [("Marriage", "Hera"), ("Parenthood", "Athena"), ("Rivalry", "Poseidon")]
    {
        let other = Deity::new(target, "An Olympian", "Greek");
        let bond = FamilyRelationship::new(
            name,
            "A divine bond",
            zeus_id,
            other.id,
            FamilyRelationshipType::Other("bond".to_string()),
        );
        bond_ids.push(bond.relationship.id);
        ontology.add_entity(MythEntity::Deity(other));
        ontology.add_entity(MythEntity::FamilyRelationship(bond));
    }
    // register out of order, with a repeat and a dangling id in between
    zeus.add_relationship(bond_ids[2]);
    zeus.add_relationship(MythId::new());
    zeus.add_relationship(bond_ids[0]);
    zeus.add_relationship(bond_ids[2]);
    zeus.add_relationship(bond_ids[1]);
    ontology.add_entity(MythEntity::Deity(zeus));

    let engine = QueryEngine::new(&ontology);
    let related = engine.find_related(&zeus_id);
    let found: Vec<MythId> = related.entity_ids();
    assert_eq!(found, vec![bond_ids[2], bond_ids[0], bond_ids[1]]);
}

#[test]
fn result_sets_count_filter_sort_and_project() {
    let mut ontology = MythOntology::new();
    let mut names: Vec<MythId> = Vec::new();
    for name in ["Hera", "Athena", "Zeus", "Apollo"] {
        let d = Deity::new(name, "An Olympian", "Greek");
        names.push(d.id);
        ontology.add_entity(MythEntity::Deity(d));
    }
    ontology.add_entity(MythEntity::Hero(Hero::new("Perseus", "Slew Medusa", "Greek")));

    let engine = QueryEngine::new(&ontology);
    let mut rs = engine.query(&[]);
    assert_eq!(rs.count(), 5);
    assert!(!rs.is_empty());

    let only_deities = rs.filter_by_type("Deity");
    assert_eq!(only_deities.count(), 4);

    rs.sort_by_name();
    let sorted: Vec<&str> = rs.results.iter().map(|r| r.name.as_str()).collect();
    assert_eq!(sorted, vec!["Apollo", "Athena", "Hera", "Perseus", "Zeus"]);

    let ids = only_deities.entity_ids();
    assert_eq!(ids.len(), 4);
    for id in names {
        assert!(ids.contains(&id));
    }
}

#[test]
fn empty_store_yields_empty_results() {
    let ontology = MythOntology::new();
    let engine = QueryEngine::new(&ontology);
    assert!(engine.query(&[]).is_empty());
    assert!(engine.find_by_name("anything").is_empty());
    assert!(engine.query(&[]).first().is_none());
}
