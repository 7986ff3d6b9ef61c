//! Identifiers that arrive as text in a request path.

use vstd::prelude::*;

use crate::error::{bare, spec_is_local, AppError, AppErrorView, BAD_REQUEST};
use crate::extractors::SiteIdentity;

verus! {

/// What reading `text` as a UUID gives: its 128-bit value, or the words in
/// which the uuid crate says why `text` writes none.
pub uninterp spec fn uuid_reading(text: Seq<char>) -> Result<u128, Seq<char>>;

/// The 128-bit value of the UUID that `text` writes, `None` where it writes
/// none.
pub open spec fn uuid_value(text: Seq<char>) -> Option<u128> {
    match uuid_reading(text) {
        Ok(v) => Some(v),
        Err(_) => None,
    }
}

/// The views of a reading.
pub open spec fn reading_view(r: Result<u128, String>) -> Result<u128, Seq<char>> {
    match r {
        Ok(v) => Ok(v),
        Err(detail) => Err(detail@),
    }
}

/// Calls `Uuid::parse_str` of the uuid crate and takes the value of the
/// result with `Uuid::as_u128`, or the text of its error. Trusted: value
/// and text depend on the input alone.
#[verifier::external_body]
fn parse_uuid(text: &str) -> (r: Result<u128, String>)
    ensures
        reading_view(r) == uuid_reading(text@),
{
    match uuid::Uuid::parse_str(text) {
        Ok(id) => Ok(id.as_u128()),
        Err(e) => Err(e.to_string()),
    }
}

/// How a post is addressed: by its UUID or by its slug.
#[derive(Debug, Clone, PartialEq, Eq)]
pub enum PostSelector {
    ByUuid(u128),
    BySlug(String),
}

/// A selector as contracts see it.
pub ghost enum PostSelectorView {
    ByUuid(u128),
    BySlug(Seq<char>),
}

impl View for PostSelector {
    type V = PostSelectorView;

    open spec fn view(&self) -> PostSelectorView {
        match self {
            PostSelector::ByUuid(v) => PostSelectorView::ByUuid(*v),
            PostSelector::BySlug(s) => PostSelectorView::BySlug(s@),
        }
    }
}

/// The selector for an identifier, given the UUID it writes, if any.
pub open spec fn spec_selector(identifier: Seq<char>, parsed: Option<u128>) -> PostSelectorView {
    match parsed {
        Some(v) => PostSelectorView::ByUuid(v),
        None => PostSelectorView::BySlug(identifier),
    }
}

impl PostSelector {
    /// An identifier that writes a UUID addresses a post by it; any other
    /// identifier is a slug.
    pub fn from_parsed(identifier: String, parsed: Option<u128>) -> (r: PostSelector)
        ensures
            r@ == spec_selector(identifier@, parsed),
    {
        match parsed {
            Some(v) => PostSelector::ByUuid(v),
            None => PostSelector::BySlug(identifier),
        }
    }

    /// Reads the identifier of a post.
    pub fn parse(identifier: String) -> (r: PostSelector)
        ensures
            r@ == spec_selector(identifier@, uuid_value(identifier@)),
    {
        let parsed = match parse_uuid(identifier.as_str()) {
            Ok(v) => Some(v),
            Err(_) => None,
        };
        PostSelector::from_parsed(identifier, parsed)
    }
}

/// The view of a tag identifier's reading.
pub open spec fn tag_id_view(r: Result<u128, AppError>) -> Result<u128, AppErrorView> {
    match r {
        Ok(v) => Ok(v),
        Err(e) => Err(e@),
    }
}

/// The reading of a tag identifier, given what reading it as a UUID gave.
/// A failure is a bad request whose cause is kept for operators.
pub open spec fn spec_tag_id(parsed: Result<u128, Seq<char>>, site_domain: Seq<char>) -> Result<
    u128,
    AppErrorView,
> {
    match parsed {
        Ok(v) => Ok(v),
        Err(detail) => Err(
            AppErrorView {
                debug: Some(detail),
                is_local: spec_is_local(site_domain),
                ..bare(BAD_REQUEST)
            },
        ),
    }
}

/// The reading of a tag identifier, given what parsing it as a UUID said:
/// its value, or the text of the failure.
pub fn tag_id_from_parsed(
    parsed: Result<u128, String>,
    site: &SiteIdentity,
) -> (r: Result<u128, AppError>)
    ensures
        tag_id_view(r) == spec_tag_id(reading_view(parsed), site.domain@),
{
    match parsed {
        Ok(v) => Ok(v),
        Err(detail) => Err(AppError::bad_request().with_debug(detail).at_site(site)),
    }
}

/// Reads the identifier of a tag, which must write a UUID.
pub fn parse_tag_id(identifier: &str, site: &SiteIdentity) -> (r: Result<u128, AppError>)
    ensures
        tag_id_view(r) == spec_tag_id(uuid_reading(identifier@), site.domain@),
{
    tag_id_from_parsed(parse_uuid(identifier), site)
}

} // verus!
