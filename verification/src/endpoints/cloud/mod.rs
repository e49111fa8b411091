//! Cloud resources: servers and their jobs, addresses and status, plus the
//! location, package and image catalogues.

pub mod images;
pub mod locations;
pub mod packages;
pub mod servers;
