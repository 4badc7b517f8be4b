//! Signal Box: the verified core of a local-first developer capture inbox.
pub mod text;
pub mod settings;
pub mod capture;
pub mod provider;
pub mod distill;
pub mod artefact;
pub mod search;
pub mod records;
pub mod ids;
pub mod schema;
