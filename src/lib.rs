//! A registry of agent identities: each owner key locates its one record at an
//! address derived from a fixed domain tag and the key, and only that owner may
//! rewrite the record's version.

pub mod address;
pub mod laws;
pub mod ledger;
pub mod record;
pub mod registry;
