use mythologic::metadata::{Metadata, Source, SourceType};

#[test]
fn fresh_metadata_is_stamped_once_and_empty() {
    let m = Metadata::new();
    assert_eq!(m.created_at, m.updated_at);
    assert!(m.sources.is_empty());
    assert!(m.attributes.is_empty());
    assert!(m.confidence.is_none());
}

#[test]
fn attributes_bind_and_overwrite() {
    let mut m = Metadata::new();
    assert!(!m.has_attribute("domain"));
    assert!(m.get_attribute("domain").is_none());

    m.add_attribute("domain", "sky");
    assert!(m.has_attribute("domain"));
    assert_eq!(m.get_attribute("domain").unwrap(), "sky");

    m.add_attribute("domain", "thunder");
    assert_eq!(m.get_attribute("domain").unwrap(), "thunder");
    assert_eq!(m.attributes.len(), 1);

    m.add_attribute("weapon", "bolt");
    assert_eq!(m.get_attribute("weapon").unwrap(), "bolt");
    assert_eq!(m.get_attribute("domain").unwrap(), "thunder");
    assert_eq!(m.attributes.len(), 2);
}

#[test]
fn default_values_are_fresh_and_empty() {
    let m = Metadata::default();
    assert_eq!(m.created_at, m.updated_at);
    assert!(m.attributes.is_empty());

    let id_a = mythologic::ids::MythId::default();
    let id_b = mythologic::ids::MythId::default();
    assert_ne!(id_a, id_b);

    let store = mythologic::ontology::MythOntology::default();
    assert_eq!(store.entity_count(), 0);
}

#[test]
fn sources_accumulate_in_order() {
    let mut m = Metadata::new();
    m.add_source(Source {
        title: "Theogony".to_string(),
        author: Some("Hesiod".to_string()),
        year: Some(-700),
        source_type: SourceType::PrimaryText,
        url: None,
        notes: None,
    });
    m.add_source(Source {
        title: "The Library".to_string(),
        author: Some("Apollodorus".to_string()),
        year: Some(100),
        source_type: SourceType::CompilationText,
        url: None,
        notes: Some("Attributed".to_string()),
    });
    assert_eq!(m.sources.len(), 2);
    assert_eq!(m.sources[0].title, "Theogony");
    assert_eq!(m.sources[1].source_type, SourceType::CompilationText);
}

#[test]
fn refreshing_the_timestamp_keeps_everything_else() {
    let mut m = Metadata::new();
    m.add_attribute("key", "value");
    let created = m.created_at;
    m.update_timestamp();
    assert_eq!(m.created_at, created);
    assert!(m.updated_at >= created);
    assert_eq!(m.get_attribute("key").unwrap(), "value");
}
