use mythologic::entity::MythEntity;
use mythologic::entities::deity::Deity;
use mythologic::entities::hero::Hero;
use mythologic::entities::location::Location;
use mythologic::ontology::MythOntology;

#[test]
fn insert_then_lookup_returns_the_same_entity() {
    let mut ontology = MythOntology::new();
    let zeus = Deity::new("Zeus", "King of the Olympian gods", "Greek");
    let id = zeus.id;
    ontology.add_entity(MythEntity::Deity(zeus));
    let found = ontology.get_entity(&id).unwrap();
    assert_eq!(*found.id(), id);
    assert_eq!(found.name(), "Zeus");
    assert_eq!(found.entity_type(), "Deity");
    assert_eq!(found.culture().unwrap().value(), "Greek");
}

#[test]
fn lookup_of_unknown_identifier_misses() {
    let mut ontology = MythOntology::new();
    ontology.add_entity(MythEntity::Deity(Deity::new("Ra", "Sun god", "Egyptian")));
    let stranger = mythologic::ids::MythId::new();
    assert!(ontology.get_entity(&stranger).is_none());
    assert!(ontology.remove_entity(&stranger).is_none());
    assert_eq!(ontology.entity_count(), 1);
}

#[test]
fn removal_deletes_exactly_one_entity() {
    let mut ontology = MythOntology::new();
    let zeus = Deity::new("Zeus", "King of the Olympian gods", "Greek");
    let zeus_id = zeus.id;
    ontology.add_entity(MythEntity::Deity(zeus));
    ontology.add_entity(MythEntity::Hero(Hero::new("Heracles", "Strongest of heroes", "Greek")));
    ontology.add_entity(MythEntity::Location(Location::new(
        "Olympus",
        "Home of the gods",
        "Greek",
    )));
    assert_eq!(ontology.entity_count(), 3);

    let removed = ontology.remove_entity(&zeus_id).unwrap();
    assert_eq!(removed.name(), "Zeus");
    assert_eq!(ontology.entity_count(), 2);
    assert_eq!(ontology.all_entities().len(), 2);
    assert!(ontology.get_entity(&zeus_id).is_none());
}

#[test]
fn duplicate_identifier_insert_overwrites() {
    let mut ontology = MythOntology::new();
    let first = Deity::new("Zeus", "King of the Olympian gods", "Greek");
    let id = first.id;
    let mut second = Deity::new("Jupiter", "King of the Roman gods", "Roman");
    second.id = id;

    ontology.add_entity(MythEntity::Deity(first));
    ontology.add_entity(MythEntity::Deity(second));

    assert_eq!(ontology.entity_count(), 1);
    let found = ontology.get_entity(&id).unwrap();
    assert_eq!(found.name(), "Jupiter");
    assert_eq!(found.culture().unwrap().value(), "Roman");
}

#[test]
fn mutable_lookup_edits_in_place() {
    let mut ontology = MythOntology::new();
    let odin = Deity::new("Odin", "All-Father", "Norse");
    let id = odin.id;
    ontology.add_entity(MythEntity::Deity(odin));

    {
        let entity = ontology.get_entity_mut(&id).unwrap();
        entity.metadata_mut().add_attribute("beard", "long");
    }

    let found = ontology.get_entity(&id).unwrap();
    assert_eq!(found.metadata().get_attribute("beard").unwrap(), "long");
    assert_eq!(ontology.entity_count(), 1);
}
