//! The query engine: a composable predicate algebra over entities, scans
//! over the store, and lightweight result sets.

pub mod engine;
pub mod filters;
pub mod results;
