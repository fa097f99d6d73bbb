//! A reader for GV100AD data sets, the fixed-width text format in which the
//! German statistical office lists the country's administrative units: states,
//! government districts, regions, districts, municipality associations and
//! municipalities.
//!
//! Each line decodes into one record ([`parser`]); the records go into an
//! in-memory [`Database`] with one ordered table per kind ([`db`]). A record
//! can be looked up by its own key or by the key of any unit below it, and the
//! units below a key are listed by one range scan, since composite keys
//! ([`model`]) order so that the descendants of a key are contiguous.
//!
//! Identifiers keep the German terms of the format: Land (state),
//! Regierungsbezirk (government district), Kreis (district), Gemeindeverband
//! (municipality association), Gemeinde (municipality), Schluessel (key),
//! Daten (record), Textkennzeichen (category code), Gebietsstand (effective
//! date).
pub mod db;
pub mod error;
pub mod field;
pub mod model;
pub mod parser;
pub mod table;
pub mod text;

pub use db::Database;
pub use parser::Parser;
