//! Decisions of the site handlers.

use vstd::prelude::*;

use crate::error::{bare, spec_is_local, AppError, AppErrorView, INTERNAL_SERVER_ERROR};
use crate::extractors::{SiteIdentity, SiteIdentityView};
use crate::gate::{refusal_at, require_local};
use crate::mask::is_tenant_bit;
use crate::registry::{created, extends, max_bit, rows_wf, RegistryError, TenantRegistry, TenantRow};

verus! {

/// A site as the site handlers report it.
#[derive(Debug, Clone, PartialEq, Eq)]
pub struct SiteResponse {
    pub id: i32,
    pub domain: String,
    pub site_mask_bit: i32,
    pub requires_auth: bool,
}

/// The body of a request that registers a site.
#[derive(Debug, Clone, PartialEq, Eq)]
pub struct CreateSiteRequest {
    pub domain: String,
    pub requires_auth: bool,
}

impl SiteResponse {
    /// A site from a persisted row, whose flag may be missing and then
    /// counts as off.
    pub fn from_row(
        id: i32,
        domain: String,
        site_mask_bit: i32,
        requires_auth: Option<bool>,
    ) -> (r: SiteResponse)
        ensures
            r.id == id,
            r.domain@ == domain@,
            r.site_mask_bit == site_mask_bit,
            r.requires_auth == (requires_auth == Some(true)),
    {
        let flag = match requires_auth {
            Some(b) => b,
            None => false,
        };
        SiteResponse { id, domain, site_mask_bit, requires_auth: flag }
    }
}

/// The error that a caller gets where the registry refuses: an internal
/// error whose cause is kept for operators.
pub open spec fn spec_registry_failure(e: RegistryError) -> AppErrorView {
    AppErrorView {
        message: Some("An unexpected system error occurred"@),
        debug: Some(e.spec_message()),
        ..bare(INTERNAL_SERVER_ERROR)
    }
}

/// The effect of a request to register a site: only a request that came
/// through a local site reaches the registry, any other is refused as
/// unauthorized.
pub open spec fn spec_create_site(
    site: SiteIdentityView,
    rows: Seq<TenantRow>,
    domain: Seq<char>,
    auth: bool,
) -> Result<Seq<TenantRow>, AppErrorView> {
    if !spec_is_local(site.domain) {
        Err(refusal_at(site))
    } else {
        match created(rows, domain, auth) {
            Ok(out) => Ok(out),
            Err(e) => Err(spec_registry_failure(e)),
        }
    }
}

/// Turns a refusal of the registry into the error that a caller gets.
pub fn registry_failure(e: RegistryError) -> (r: AppError)
    ensures
        r@ == spec_registry_failure(e),
{
    AppError::unexpected(e.message().to_owned())
}

/// Registers the site that a request asks for and returns the bit it got.
/// A request that did not come through a local site is refused as
/// unauthorized. Whenever the request fails, the registry stays as it was.
pub fn create_site(
    registry: &mut TenantRegistry,
    site: &SiteIdentity,
    payload: CreateSiteRequest,
) -> (r: Result<i32, AppError>)
    ensures
        match spec_create_site(site@, old(registry)@, payload.domain@, payload.requires_auth) {
            Ok(rows) => r is Ok && r->Ok_0 == rows.last().bit && final(registry)@ == rows
                && rows_wf(rows) && extends(old(registry)@, rows),
            Err(e) => r is Err && r->Err_0@ == e && final(registry)@ == old(registry)@,
        },
        !spec_is_local(site.domain@) ==> r is Err && r->Err_0@ == refusal_at(site@)
            && final(registry)@ == old(registry)@,
        r is Ok ==> is_tenant_bit(r->Ok_0) && r->Ok_0 > max_bit(old(registry)@),
{
    if let Err(refused) = require_local(site) {
        return Err(refused);
    }
    match registry.create_site(payload.domain, payload.requires_auth) {
        Ok(bit) => Ok(bit),
        Err(e) => Err(registry_failure(e)),
    }
}

} // verus!
