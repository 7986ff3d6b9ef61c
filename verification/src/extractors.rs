//! Resolution of an inbound request to the tenant it belongs to.

use vstd::prelude::*;

use crate::config::AppConfig;
use crate::error::{bare, AppError, AppErrorView, UNAUTHORIZED};
use crate::registry::{row_for, Tenant, TenantRegistry, TenantRow};
use crate::text::{copy_opt, opt_str_view, opt_view};

verus! {

/// The tenant a request belongs to. Built once per request.
#[derive(Debug, Clone, PartialEq, Eq)]
pub struct SiteIdentity {
    pub mask: i32,
    pub domain: String,
    pub requires_auth: bool,
    pub gpg_email: Option<String>,
}

/// A request's tenant as contracts see it.
pub ghost struct SiteIdentityView {
    pub mask: i32,
    pub domain: Seq<char>,
    pub requires_auth: bool,
    pub gpg_email: Option<Seq<char>>,
}

impl View for SiteIdentity {
    type V = SiteIdentityView;

    open spec fn view(&self) -> SiteIdentityView {
        SiteIdentityView {
            mask: self.mask,
            domain: self.domain@,
            requires_auth: self.requires_auth,
            gpg_email: opt_view(self.gpg_email),
        }
    }
}

/// The host under which a request is looked up: the debug header where the
/// deployment allows it and the request carries one, else the host header,
/// else `unknown`.
pub open spec fn spec_request_host(
    host: Option<Seq<char>>,
    debug_host: Option<Seq<char>>,
    allow_debug_headers: bool,
) -> Seq<char> {
    if allow_debug_headers && debug_host is Some {
        debug_host->0
    } else {
        match host {
            Some(h) => h,
            None => "unknown"@,
        }
    }
}

/// Picks the host under which a request is looked up.
pub fn request_host(
    host: Option<&str>,
    debug_host: Option<&str>,
    allow_debug_headers: bool,
) -> (r: String)
    ensures
        r@ == spec_request_host(opt_str_view(host), opt_str_view(debug_host), allow_debug_headers),
{
    if allow_debug_headers {
        if let Some(debug) = debug_host {
            return debug.to_owned();
        }
    }
    match host {
        Some(h) => h.to_owned(),
        None => "unknown".to_owned(),
    }
}

/// The outcome of a tenant lookup: the identity of the tenant found, or an
/// authorization failure that says nothing about which domains exist.
pub open spec fn spec_identity(
    host: Seq<char>,
    found: Option<TenantRow>,
    gpg_email: Option<Seq<char>>,
) -> Result<SiteIdentityView, AppErrorView> {
    match found {
        Some(row) => Ok(
            SiteIdentityView {
                mask: row.bit,
                domain: host,
                requires_auth: row.requires_auth,
                gpg_email,
            },
        ),
        None => Err(bare(UNAUTHORIZED)),
    }
}

/// The views of a resolution's outcome.
pub open spec fn outcome_view(r: Result<SiteIdentity, AppError>) -> Result<
    SiteIdentityView,
    AppErrorView,
> {
    match r {
        Ok(site) => Ok(site@),
        Err(e) => Err(e@),
    }
}

impl SiteIdentity {
    /// Builds the identity for `host` from the registry row found for it.
    /// A host without a row is refused as unauthorized.
    pub fn from_lookup(
        host: String,
        found: Option<&Tenant>,
        gpg_email: Option<String>,
    ) -> (r: Result<SiteIdentity, AppError>)
        ensures
            outcome_view(r) == spec_identity(
                host@,
                match found {
                    Some(t) => Some(t@),
                    None => None,
                },
                opt_view(gpg_email),
            ),
    {
        match found {
            Some(tenant) => Ok(
                SiteIdentity {
                    mask: tenant.bit,
                    domain: host,
                    requires_auth: tenant.requires_auth,
                    gpg_email,
                },
            ),
            None => Err(AppError::unauthorized()),
        }
    }

    /// Resolves a request to its tenant: picks the host, looks it up in the
    /// registry and attaches the deployment's signing contact.
    pub fn from_request_parts(
        host: Option<&str>,
        debug_host: Option<&str>,
        config: &AppConfig,
        registry: &TenantRegistry,
    ) -> (r: Result<SiteIdentity, AppError>)
        ensures
            outcome_view(r) == spec_identity(
                spec_request_host(
                    opt_str_view(host),
                    opt_str_view(debug_host),
                    config.allow_debug_headers,
                ),
                row_for(
                    registry@,
                    spec_request_host(
                        opt_str_view(host),
                        opt_str_view(debug_host),
                        config.allow_debug_headers,
                    ),
                ),
                opt_view(config.gpg_email),
            ),
    {
        let chosen = request_host(host, debug_host, config.allow_debug_headers);
        let found = registry.lookup(chosen.as_str());
        SiteIdentity::from_lookup(chosen, found, copy_opt(&config.gpg_email))
    }
}

} // verus!
