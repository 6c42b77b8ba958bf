//! An in-memory ontology of mythological entities: a closed entity model
//! (deities, heroes, creatures, artifacts, locations, concepts), typed
//! relationships with directionality and inversion rules, cultural contexts,
//! a single-owner identifier-keyed store, and a composable query engine.

pub mod cultural;
pub mod entities;
pub mod entity;
pub mod ids;
pub mod metadata;
pub mod names;
pub mod ontology;
pub mod query;
pub mod relationships;
pub mod text;
