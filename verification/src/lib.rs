//! Client-side logic of the Synapse SDK: request framing, response
//! classification, retry scheduling, error mapping and table rendering.
pub mod text;
pub mod json;
pub mod error;
pub mod retry;
pub mod client;
pub mod models;
pub mod admin_models;
pub mod resources;
pub mod formatter;
pub mod resolvers;
