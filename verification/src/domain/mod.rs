//! Domain-level records, independent of the wire shapes under
//! `endpoints`.

pub mod packages;
pub mod plans;
pub mod servers;
