//! Decisions of the tag handlers.

use vstd::prelude::*;

use crate::error::{bare, spec_is_local, AppError, AppErrorView, NOT_FOUND};
use crate::extractors::SiteIdentity;
use crate::gate::pass_view;

verus! {

/// What tags can be sorted by.
#[derive(Debug, Clone, Copy, PartialEq, Eq, Structural)]
pub enum TagSort {
    Usage,
    Popularity,
    Alphabetical,
}

/// The column that a tag listing is ordered by: the name unless usage or
/// popularity was asked for.
pub fn tag_order_column(sort: Option<&TagSort>) -> (r: &'static str)
    ensures
        r@ == match sort {
            Some(TagSort::Popularity) => "selected_count"@,
            Some(TagSort::Usage) => "use_count"@,
            _ => "tag_name"@,
        },
{
    match sort {
        Some(TagSort::Popularity) => "selected_count",
        Some(TagSort::Usage) => "use_count",
        _ => "tag_name",
    }
}

/// The answer to a tag selection, given how many rows it touched: a tag
/// that the tenant cannot see, or that does not exist, is not found.
pub fn selection_outcome(rows_affected: u64, site: &SiteIdentity) -> (r: Result<(), AppError>)
    ensures
        pass_view(r) == if rows_affected == 0 {
            Err::<(), AppErrorView>(
                AppErrorView { is_local: spec_is_local(site.domain@), ..bare(NOT_FOUND) },
            )
        } else {
            Ok::<(), AppErrorView>(())
        },
{
    if rows_affected == 0 {
        return Err(AppError::not_found().at_site(site));
    }
    Ok(())
}

} // verus!
