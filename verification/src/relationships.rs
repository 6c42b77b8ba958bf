//! Typed relationships between mythological entities: a base edge record
//! with strength and directionality, specialized into family, alliance,
//! conflict and transformation kinds with their own inversion rules.

pub mod alliance;
pub mod conflict;
pub mod family;
pub mod relationship;
pub mod transformation;
