//! Rows as the store returns them, and the loaders that batch lookups.

pub mod batch;
pub mod batch_proofs;
pub mod loaders;
pub mod photo;
pub mod post;
