//! Rate limiters.
pub mod token_bucket;
pub mod leaky_bucket;
pub mod blocking;
pub mod shared;
