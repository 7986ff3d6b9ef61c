//! Core of a multi-tenant content backend: tenant visibility bits and
//! DNS-anchored signature verification, with machine-checked contracts.

pub mod config;
pub mod error;
pub mod extractors;
pub mod gate;
pub mod gpg;
pub mod ident;
pub mod mask;
pub mod params;
pub mod registry;
pub mod routes;
pub mod text;
