//! What the GraphQL schema shows of posts and photos.

pub mod schema;
