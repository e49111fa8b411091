//! The resource types the API exposes, each with its declared endpoint
//! bindings.

pub mod account;
pub mod bgp;
pub mod catalogue;
pub mod cloud;
pub mod dns;

pub use account::account::Details;
pub use account::invoices::Invoices;
pub use account::ssh::SSHKeys;
pub use bgp::Bgp;
pub use cloud::images::Image;
pub use cloud::images::ImageData;
pub use cloud::images::ImagesData;
pub use cloud::locations::Location;
pub use cloud::packages::Package;
pub use cloud::packages::PackageData;
pub use cloud::packages::PackagesData;
pub use cloud::servers::IPv4;
pub use cloud::servers::IPv4Data;
pub use cloud::servers::IPv6;
pub use cloud::servers::IPv6Data;
pub use cloud::servers::Server;
pub use cloud::servers::SrvJob;
pub use cloud::servers::SrvStatus;
pub use cloud::servers::SrvStatusData;
pub use dns::Record;
pub use dns::SOA;
pub use dns::TtlType;
pub use dns::Zone;
