//! Per-resource operations of the public and admin APIs.
pub mod admin;
pub mod graphql;
pub mod settlements;
