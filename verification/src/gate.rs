//! Access decisions: who may read a content item and who may write.

use vstd::prelude::*;

use crate::error::{bare, is_local, spec_is_local, AppError, AppErrorView, UNAUTHORIZED};
use crate::extractors::{SiteIdentity, SiteIdentityView};
use crate::mask::{is_visible, spec_is_visible};

verus! {

/// A tenant may write where it requires authentication and the caller is
/// privileged.
pub open spec fn spec_can_write(site: SiteIdentityView, privileged: bool) -> bool {
    site.requires_auth && privileged
}

/// The refusal that a site gets: unauthorized, marked with whether the site
/// is local.
pub open spec fn refusal_at(site: SiteIdentityView) -> AppErrorView {
    AppErrorView { is_local: spec_is_local(site.domain), ..bare(UNAUTHORIZED) }
}

/// The view of a gate's answer.
pub open spec fn pass_view(r: Result<(), AppError>) -> Result<(), AppErrorView> {
    match r {
        Ok(()) => Ok(()),
        Err(e) => Err(e@),
    }
}

/// Decides whether the tenant of a request may read content with the given
/// visibility mask.
pub fn can_read(site: &SiteIdentity, content_mask: i32) -> (r: bool)
    ensures
        r == spec_is_visible(site.mask, content_mask),
{
    is_visible(site.mask, content_mask)
}

/// Decides whether a request may write for its tenant. `privileged` is the
/// answer of whatever authenticates the caller.
pub fn can_write(site: &SiteIdentity, privileged: bool) -> (r: bool)
    ensures
        r == spec_can_write(site@, privileged),
{
    site.requires_auth && privileged
}

/// Lets a request pass where its tenant requires authentication.
pub fn require_auth(site: &SiteIdentity) -> (r: Result<(), AppError>)
    ensures
        pass_view(r) == if site.requires_auth {
            Ok::<(), AppErrorView>(())
        } else {
            Err::<(), AppErrorView>(refusal_at(site@))
        },
{
    if !site.requires_auth {
        return Err(AppError::unauthorized().at_site(site));
    }
    Ok(())
}

/// Lets a request pass where it came through a local site.
pub fn require_local(site: &SiteIdentity) -> (r: Result<(), AppError>)
    ensures
        pass_view(r) == if spec_is_local(site.domain@) {
            Ok::<(), AppErrorView>(())
        } else {
            Err::<(), AppErrorView>(refusal_at(site@))
        },
{
    if !is_local(site.domain.as_str()) {
        return Err(AppError::unauthorized().at_site(site));
    }
    Ok(())
}

/// Lets a request write posts where its tenant requires authentication and
/// the request came through a local site, which stands for a privileged
/// caller.
pub fn require_writer(site: &SiteIdentity) -> (r: Result<(), AppError>)
    ensures
        pass_view(r) == if spec_can_write(site@, spec_is_local(site.domain@)) {
            Ok::<(), AppErrorView>(())
        } else {
            Err::<(), AppErrorView>(bare(UNAUTHORIZED))
        },
{
    if !site.requires_auth {
        return Err(AppError::unauthorized());
    }
    if !is_local(site.domain.as_str()) {
        return Err(AppError::unauthorized());
    }
    Ok(())
}

} // verus!
