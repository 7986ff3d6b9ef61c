//! What the request handlers decide, apart from storage and transport.

pub mod authors;
pub mod posts;
pub mod sites;
pub mod tags;
