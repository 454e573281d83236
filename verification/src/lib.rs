//! A small persistence layer for a flash-card vocabulary collection.
//!
//! Four record types — categories, languages, cards and translations — are
//! stored in a single-file SQLite database.  The mapping between rows and
//! records, the insert-or-update save algorithm and the entity-specific
//! queries are verified; the calls into the storage engine are the only
//! trusted parts, each with a contract over a ghost model of the four tables.

pub mod database;
pub mod datum;
pub mod joined;
pub mod laws;
pub mod models;
pub mod schema;
