//! The records of the service.

pub mod account;
