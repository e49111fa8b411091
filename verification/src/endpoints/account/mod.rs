//! Account resources: details, invoices and SSH keys.

pub mod account;
pub mod invoices;
pub mod ssh;
