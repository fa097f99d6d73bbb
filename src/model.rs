//! The records of the format and their composite keys.
pub mod datensatz;
pub mod datum;
pub mod gemeinde;
pub mod gemeindeverband;
pub mod key;
pub mod kreis;
pub mod land;
pub mod regierungsbezirk;
pub mod region;
