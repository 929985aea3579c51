//! Persistence rules of a desktop ledger: the account record, the mapping of
//! stored rows onto it, the schema scripts and the start-up sequence of the
//! database. The decisions live here and are proved; the host performs the
//! storage work and reports back.

pub mod models;
pub mod row;
pub mod repository;
pub mod schema;
pub mod settings;
pub mod startup;
