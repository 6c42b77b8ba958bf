//! Concrete mythological entities: deities, heroes, creatures, artifacts,
//! locations and abstract concepts.

pub mod artifact;
pub mod concept;
pub mod creature;
pub mod deity;
pub mod hero;
pub mod location;
