//! Posts and their photos, with the request-scoped loaders that batch and
//! cache the lookups between them.
//!
//! Everything that talks to a database or to the network lives outside this
//! crate: the functions here take the rows a query returned and decide what
//! each waiting caller is given.

pub mod db;
pub mod graphql;
pub mod text;
