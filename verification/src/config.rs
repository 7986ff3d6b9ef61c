//! Deployment configuration as plain values.

use vstd::prelude::*;

verus! {

/// One declared tenant: its domain and whether writes need authentication.
#[derive(Debug, Clone, PartialEq, Eq)]
pub struct SiteConfig {
    pub domain: String,
    pub auth: bool,
}

/// A declared tenant as contracts see it.
pub ghost struct SiteDecl {
    pub domain: Seq<char>,
    pub auth: bool,
}

impl View for SiteConfig {
    type V = SiteDecl;

    open spec fn view(&self) -> SiteDecl {
        SiteDecl { domain: self.domain@, auth: self.auth }
    }
}

/// The declared tenants of a configuration, in declaration order.
pub open spec fn declared(sites: Seq<SiteConfig>) -> Seq<SiteDecl> {
    sites.map_values(|s: SiteConfig| s@)
}

/// Settings of one deployment.
#[derive(Debug, Clone, PartialEq, Eq)]
pub struct AppConfig {
    pub database_url: String,
    pub run_migrations: bool,
    pub server_addr: String,
    /// Lets a debug header replace the request's host. Off unless a
    /// deployment turns it on: it bypasses host-based tenant selection.
    pub allow_debug_headers: bool,
    pub gpg_email: Option<String>,
    pub sites: Vec<SiteConfig>,
}

} // verus!
