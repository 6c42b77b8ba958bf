use mythologic::ids::MythId;
use mythologic::relationships::relationship::{
    Invertible, Properties, Relatable, Relationship, RelationshipBuilder, RelationshipType,
};
use mythologic::relationships::family::{FamilyRelationship, FamilyRelationshipType};
use mythologic::relationships::alliance::{AllianceRelationship, AllianceType};
use mythologic::relationships::conflict::{ConflictOutcome, ConflictRelationship, ConflictType};
use mythologic::relationships::transformation::{
    TransformationRelationship, TransformationType,
};

#[test]
fn family_inverses_swap_generations_and_fix_symmetric_kinds() {
    assert_eq!(FamilyRelationshipType::Parent.inverse(), FamilyRelationshipType::Child);
    assert_eq!(FamilyRelationshipType::Child.inverse(), FamilyRelationshipType::Parent);
    assert_eq!(FamilyRelationshipType::Ancestor.inverse(), FamilyRelationshipType::Descendant);
    assert_eq!(FamilyRelationshipType::Descendant.inverse(), FamilyRelationshipType::Ancestor);
    assert_eq!(FamilyRelationshipType::Sibling.inverse(), FamilyRelationshipType::Sibling);
    assert_eq!(FamilyRelationshipType::Spouse.inverse(), FamilyRelationshipType::Spouse);
    assert_eq!(FamilyRelationshipType::Twin.inverse(), FamilyRelationshipType::Twin);
    assert_eq!(FamilyRelationshipType::Cousin.inverse(), FamilyRelationshipType::Cousin);
    let named = FamilyRelationshipType::Other("foster".to_string());
    assert_eq!(named.inverse(), named);
    // inverting twice always returns the original kind
    assert_eq!(FamilyRelationshipType::Parent.inverse().inverse(), FamilyRelationshipType::Parent);
    assert_eq!(
        FamilyRelationshipType::Ancestor.inverse().inverse(),
        FamilyRelationshipType::Ancestor
    );
}

#[test]
fn strength_is_clamped_into_the_unit_interval() {
    let mut rel = Relationship::new(
        "Bond",
        "A bond",
        MythId::new(),
        MythId::new(),
        RelationshipType::Alliance,
    );
    assert_eq!(rel.strength(), 500);

    // a strength of -1.0 stores as 0.0, one of 2.0 stores as 1.0
    let below: f32 = -1.0;
    let above: f32 = 2.0;
    rel.set_strength((below * 1000.0) as i64);
    assert_eq!(rel.strength(), 0);
    rel.set_strength((above * 1000.0) as i64);
    assert_eq!(rel.strength(), 1000);
    rel.set_strength(250);
    assert_eq!(rel.strength(), 250);
}

#[test]
fn builder_clamps_strength_and_keeps_fields() {
    let source = MythId::new();
    let target = MythId::new();
    let rel = RelationshipBuilder::new(
        "Bond",
        "A bond",
        source,
        target,
        RelationshipType::Worship,
    ).strength(2000).bidirectional(true).build();
    assert_eq!(rel.strength, 1000);
    assert!(rel.is_bidirectional());
    assert_eq!(*rel.source_id(), source);
    assert_eq!(*rel.target_id(), target);
    assert_eq!(*rel.relationship_type(), RelationshipType::Worship);
}

#[test]
fn spouse_bond_is_bidirectional_and_self_inverse() {
    let rel = FamilyRelationship::new(
        "Marriage",
        "Zeus and Hera",
        MythId::new(),
        MythId::new(),
        FamilyRelationshipType::Spouse,
    );
    assert!(rel.is_bidirectional());
    assert_eq!(FamilyRelationshipType::Spouse.inverse(), FamilyRelationshipType::Spouse);
}

#[test]
fn family_kind_drives_directionality() {
    let parent = FamilyRelationship::new(
        "Parenthood",
        "Zeus fathered Athena",
        MythId::new(),
        MythId::new(),
        FamilyRelationshipType::Parent,
    );
    assert!(!parent.is_bidirectional());

    let mut rel = parent;
    rel.set_family_type(FamilyRelationshipType::Twin);
    assert!(rel.is_bidirectional());
    assert_eq!(*rel.family_type(), FamilyRelationshipType::Twin);
}

#[test]
fn alliance_kind_drives_directionality() {
    assert!(AllianceType::Military.is_typically_bidirectional());
    assert!(AllianceType::Friendship.is_typically_bidirectional());
    assert!(!AllianceType::Mentorship.is_typically_bidirectional());
    assert!(!AllianceType::Patronage.is_typically_bidirectional());
    assert_eq!(AllianceType::Oath.inverse(), AllianceType::Oath);

    let mentorship = AllianceRelationship::new(
        "Tutelage",
        "Chiron taught Achilles",
        MythId::new(),
        MythId::new(),
        AllianceType::Mentorship,
        "Education",
    );
    assert!(!mentorship.is_bidirectional());
    assert_eq!(mentorship.purpose(), "Education");
}

#[test]
fn alliance_properties_intercept_purpose_and_duration() {
    let mut rel = AllianceRelationship::new(
        "Pact",
        "A pact",
        MythId::new(),
        MythId::new(),
        AllianceType::Pact,
        "Peace",
    );
    assert_eq!(rel.get_property("purpose"), Some("Peace"));
    assert_eq!(rel.get_property("duration"), None);

    rel.set_property("duration", "ten years");
    assert_eq!(rel.get_property("duration"), Some("ten years"));
    assert_eq!(rel.duration(), Some("ten years"));

    rel.set_property("purpose", "War");
    assert_eq!(rel.purpose(), "War");

    rel.set_property("witness", "Styx");
    assert_eq!(rel.get_property("witness"), Some("Styx"));
    assert_eq!(rel.get_property("unset"), None);
}

#[test]
fn conflict_outcome_keeps_the_victor() {
    let victor = MythId::new();
    let mut rel = ConflictRelationship::new(
        "Titanomachy",
        "Olympians against Titans",
        MythId::new(),
        MythId::new(),
        ConflictType::War,
    );
    assert!(rel.outcome().is_none());
    rel.set_outcome(ConflictOutcome {
        description: "The Olympians prevailed".to_string(),
        victor_id: Some(victor),
        consequences: vec!["The Titans were imprisoned".to_string()],
    });
    assert_eq!(rel.outcome().unwrap().victor_id, Some(victor));
    assert_eq!(rel.outcome().unwrap().consequences.len(), 1);
}

#[test]
fn conflict_kind_drives_directionality() {
    assert!(ConflictType::War.is_typically_bidirectional());
    assert!(!ConflictType::Curse.is_typically_bidirectional());
    assert!(!ConflictType::Punishment.is_typically_bidirectional());
    let curse = ConflictRelationship::new(
        "Curse",
        "A god cursed a mortal",
        MythId::new(),
        MythId::new(),
        ConflictType::Curse,
    );
    assert!(!curse.is_bidirectional());
}

#[test]
fn transformation_inverse_swaps_curse_and_blessing() {
    assert_eq!(TransformationType::Curse.inverse(), TransformationType::Blessing);
    assert_eq!(TransformationType::Blessing.inverse(), TransformationType::Curse);
    assert_eq!(TransformationType::Apotheosis.inverse(), TransformationType::Apotheosis);
    assert!(!TransformationType::Shapeshifting.is_typically_bidirectional());
}

#[test]
fn transformation_flags_parse_from_property_text() {
    let mut rel = TransformationRelationship::new(
        "Petrification",
        "Medusa's gaze",
        MythId::new(),
        MythId::new(),
        TransformationType::Petrification,
        "Gaze",
    );
    assert!(rel.is_permanent());
    assert!(!rel.is_reversible());
    assert_eq!(rel.get_property("cause"), Some("Gaze"));
    assert_eq!(rel.get_property("permanent"), Some("true"));
    assert_eq!(rel.get_property("reversible"), Some("false"));

    rel.set_property("permanent", "false");
    assert!(!rel.is_permanent());
    rel.set_property("permanent", "sideways");
    assert!(rel.is_permanent());
    rel.set_property("reversible", "true");
    assert!(rel.is_reversible());
    rel.set_property("reversible", "sideways");
    assert!(!rel.is_reversible());

    rel.set_property("cause", "Curse of Athena");
    assert_eq!(rel.cause(), "Curse of Athena");

    rel.set_property("witness", "Perseus");
    assert_eq!(rel.get_property("witness"), Some("Perseus"));
}

#[test]
fn relatable_accessors_reach_the_base_record() {
    let source = MythId::new();
    let target = MythId::new();
    let mut rel = FamilyRelationship::new(
        "Parenthood",
        "Kronos fathered Zeus",
        source,
        target,
        FamilyRelationshipType::Parent,
    );
    assert_eq!(*rel.source_id(), source);
    assert_eq!(*rel.target_id(), target);
    assert_eq!(rel.name(), "Parenthood");
    assert_eq!(rel.description(), "Kronos fathered Zeus");
    assert_eq!(*rel.relationship_type(), RelationshipType::Family);
    rel.set_strength(-5);
    assert_eq!(rel.strength(), 0);
    rel.set_bidirectional(true);
    assert!(rel.is_bidirectional());
}

#[test]
fn specialized_builders_configure_everything() {
    let source = MythId::new();
    let target = MythId::new();
    let family = FamilyRelationship::builder(
        "Parenthood",
        "Zeus fathered Athena",
        source,
        target,
        FamilyRelationshipType::Parent,
    ).strength(900).bidirectional(true).property("favored", "yes").build();
    assert_eq!(family.relationship.strength, 900);
    assert!(family.relationship.bidirectional);
    assert_eq!(family.get_property("favored"), Some("yes"));

    let alliance = AllianceRelationship::builder(
        "Pact",
        "A pact",
        source,
        target,
        AllianceType::Oath,
        "Peace",
    ).duration("a century").strength(-10).build();
    assert_eq!(alliance.relationship.strength, 0);
    assert_eq!(alliance.duration(), Some("a century"));

    let conflict = ConflictRelationship::builder(
        "Duel",
        "A duel",
        source,
        target,
        ConflictType::Duel,
    ).outcome(ConflictOutcome {
        description: "A draw".to_string(),
        victor_id: None,
        consequences: Vec::new(),
    }).build();
    assert!(conflict.outcome().unwrap().victor_id.is_none());

    let transformation = TransformationRelationship::builder(
        "Apotheosis",
        "Heracles became a god",
        source,
        target,
        TransformationType::Apotheosis,
        "Divine favor",
    ).permanent(true).reversible(false).strength(1500).build();
    assert_eq!(transformation.relationship.strength, 1000);
    assert!(transformation.is_permanent());
}
