//! Cultural contexts: cultures, pantheons, mythological eras and regions.

pub mod culture;
pub mod era;
pub mod pantheon;
pub mod region;
