//! What the author handlers take and give.

use vstd::prelude::*;

verus! {

/// A social account of an author as the author handlers report it.
#[derive(Debug, Clone, PartialEq, Eq)]
pub struct SocialResponse {
    pub platform: String,
    pub handle: String,
    pub url: Option<String>,
    pub visibility_mask: i32,
}

/// The body of a request that registers an author.
#[derive(Debug, Clone, PartialEq, Eq)]
pub struct CreateAuthorRequest {
    pub name: String,
    pub bio: Option<String>,
    pub signing_email: Option<String>,
}

/// The body of a request that adds a social account to an author.
#[derive(Debug, Clone, PartialEq, Eq)]
pub struct AddSocialRequest {
    pub platform: String,
    pub handle: String,
    pub url: Option<String>,
    pub visibility_mask: i32,
}

} // verus!
