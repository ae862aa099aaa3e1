//! Authentication and authorization core: identifiers, password-derived
//! keys, sessions and permission grants, with every rule stated as a contract.

pub mod auth;
pub mod data;
pub mod database;
pub mod error;
pub mod routes;
pub mod text;
