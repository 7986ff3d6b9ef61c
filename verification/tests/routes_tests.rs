use backend::error::AppError;
use backend::extractors::SiteIdentity;
use backend::gate::{can_read, can_write, require_auth, require_local, require_writer};
use backend::ident::{parse_tag_id, tag_id_from_parsed, PostSelector};
use backend::params::{SearchParams, SortParams, PaginationParams};
use backend::registry::{RegistryError, Tenant, TenantRegistry};
use backend::routes::authors::{AddSocialRequest, CreateAuthorRequest, SocialResponse};
use backend::routes::posts::{
    post_order_column, tag_changes, CreatePostRequest, PostParams, PostSort, TagChanges,
    UpdatePostRequest,
};
use backend::routes::sites::{create_site, registry_failure, CreateSiteRequest, SiteResponse};
use backend::routes::tags::{selection_outcome, tag_order_column, TagSort};

fn site(domain: &str, requires_auth: bool) -> SiteIdentity {
    SiteIdentity { mask: 2, domain: domain.to_string(), requires_auth, gpg_email: None }
}

fn tags(names: &[&str]) -> Vec<String> {
    names.iter().map(|s| s.to_string()).collect()
}

fn refusal(is_local: bool) -> AppError {
    AppError { status: 401, message: None, debug: None, is_local }
}

#[test]
fn reading_needs_a_shared_bit() {
    assert!(can_read(&site("a.example", false), 2));
    assert!(can_read(&site("a.example", false), 7));
    assert!(!can_read(&site("a.example", false), 1));
    assert!(!can_read(&site("a.example", true), 0));
}

#[test]
fn writing_needs_an_authenticating_tenant_and_a_privileged_caller() {
    assert!(can_write(&site("a.example", true), true));
    assert!(!can_write(&site("a.example", true), false));
    assert!(!can_write(&site("a.example", false), true));
    assert!(!can_write(&site("a.example", false), false));
}

#[test]
fn require_auth_refuses_open_tenants() {
    assert_eq!(require_auth(&site("a.example", true)), Ok(()));
    assert_eq!(require_auth(&site("a.example", false)), Err(refusal(false)));
    assert_eq!(require_auth(&site("localhost", false)), Err(refusal(true)));
}

#[test]
fn require_local_refuses_remote_sites() {
    assert_eq!(require_local(&site("localhost:3000", false)), Ok(()));
    assert_eq!(require_local(&site("127.0.0.1", true)), Ok(()));
    assert_eq!(require_local(&site("a.example", true)), Err(refusal(false)));
}

#[test]
fn require_writer_needs_both() {
    assert_eq!(require_writer(&site("localhost", true)), Ok(()));
    assert_eq!(require_writer(&site("localhost", false)), Err(AppError::unauthorized()));
    assert_eq!(require_writer(&site("a.example", true)), Err(AppError::unauthorized()));
    assert_eq!(require_writer(&site("a.example", false)), Err(AppError::unauthorized()));
}

#[test]
fn posts_are_ordered_by_creation_unless_titles_are_asked_for() {
    assert_eq!(post_order_column(None), "created_at");
    assert_eq!(post_order_column(Some(&PostSort::Date)), "created_at");
    assert_eq!(
        post_order_column(Some(&PostSort::Title)),
        "REGEXP_REPLACE(title, '^(The|A|An)\\s+', '', 'i')"
    );
}

#[test]
fn post_params_carry_the_search_parameters() {
    let params = PostParams {
        base: SearchParams {
            sortable: SortParams {
                pagination: PaginationParams { limit: Some("3".to_string()), offset: None },
                sort: Some(PostSort::Title),
                sort_by: None,
            },
            search: None,
        },
        tag: Some("rust".to_string()),
    };
    assert_eq!(params.base.limit(), 3);
    assert_eq!(post_order_column(params.base.sort()), "REGEXP_REPLACE(title, '^(The|A|An)\\s+', '', 'i')");
    assert_eq!(params.tag, Some("rust".to_string()));
}

#[test]
fn tags_are_ordered_by_name_unless_counts_are_asked_for() {
    assert_eq!(tag_order_column(None), "tag_name");
    assert_eq!(tag_order_column(Some(&TagSort::Alphabetical)), "tag_name");
    assert_eq!(tag_order_column(Some(&TagSort::Usage)), "use_count");
    assert_eq!(tag_order_column(Some(&TagSort::Popularity)), "selected_count");
}

#[test]
fn tag_changes_are_the_two_differences() {
    assert_eq!(
        tag_changes(&tags(&["a", "b", "c"]), &tags(&["b", "d", "e"])),
        TagChanges { to_remove: tags(&["a", "c"]), to_add: tags(&["d", "e"]) }
    );
}

#[test]
fn tag_changes_name_each_tag_once() {
    assert_eq!(
        tag_changes(&tags(&["a", "a", "b", "a"]), &tags(&["c", "b", "c", "c"])),
        TagChanges { to_remove: tags(&["a"]), to_add: tags(&["c"]) }
    );
}

#[test]
fn unchanged_tags_change_nothing() {
    assert_eq!(
        tag_changes(&tags(&["a", "b"]), &tags(&["b", "a"])),
        TagChanges { to_remove: vec![], to_add: vec![] }
    );
    assert_eq!(tag_changes(&vec![], &vec![]), TagChanges { to_remove: vec![], to_add: vec![] });
}

#[test]
fn tags_differ_by_case_and_by_every_character() {
    assert_eq!(
        tag_changes(&tags(&["Rust", ""]), &tags(&["rust"])),
        TagChanges { to_remove: tags(&["Rust", ""]), to_add: tags(&["rust"]) }
    );
}

#[test]
fn update_request_compares_against_the_old_tags() {
    let request = UpdatePostRequest {
        title: "t".to_string(),
        slug: None,
        content: "c".to_string(),
        tags: tags(&["x", "y"]),
        visibility_mask: 3,
        signature: None,
        is_mature: false,
        summary: None,
    };
    assert_eq!(
        request.tag_changes(&tags(&["y", "z"])),
        TagChanges { to_remove: tags(&["z"]), to_add: tags(&["x"]) }
    );
}

#[test]
fn a_selection_that_touched_no_row_is_not_found() {
    assert_eq!(selection_outcome(1, &site("a.example", false)), Ok(()));
    assert_eq!(selection_outcome(5, &site("a.example", false)), Ok(()));
    assert_eq!(
        selection_outcome(0, &site("a.example", false)),
        Err(AppError { status: 404, message: None, debug: None, is_local: false })
    );
    assert_eq!(
        selection_outcome(0, &site("localhost", false)),
        Err(AppError { status: 404, message: None, debug: None, is_local: true })
    );
}

#[test]
fn site_response_reads_a_missing_flag_as_off() {
    assert_eq!(
        SiteResponse::from_row(7, "a.example".to_string(), 4, None),
        SiteResponse { id: 7, domain: "a.example".to_string(), site_mask_bit: 4, requires_auth: false }
    );
    assert!(SiteResponse::from_row(7, "a.example".to_string(), 4, Some(true)).requires_auth);
    assert!(!SiteResponse::from_row(7, "a.example".to_string(), 4, Some(false)).requires_auth);
}

fn three_sites() -> TenantRegistry {
    TenantRegistry::from_rows(vec![
        Tenant { domain: "a.example".to_string(), bit: 1, requires_auth: false },
        Tenant { domain: "b.example".to_string(), bit: 2, requires_auth: false },
        Tenant { domain: "c.example".to_string(), bit: 4, requires_auth: false },
    ])
    .unwrap()
}

fn internal_error(cause: &str) -> AppError {
    AppError {
        status: 500,
        message: Some("An unexpected system error occurred".to_string()),
        debug: Some(cause.to_string()),
        is_local: false,
    }
}

#[test]
fn create_site_request_gets_the_next_bit() {
    let mut registry = three_sites();
    let payload = CreateSiteRequest { domain: "d.example".to_string(), requires_auth: true };
    assert_eq!(create_site(&mut registry, &site("localhost:3000", false), payload), Ok(8));
    assert_eq!(
        registry.lookup("d.example"),
        Some(&Tenant { domain: "d.example".to_string(), bit: 8, requires_auth: true })
    );
    assert_eq!(registry.len(), 4);
}

#[test]
fn create_site_is_refused_for_a_site_that_is_not_local() {
    let mut registry = three_sites();
    let before = registry.tenants().clone();
    for remote in ["blog.example", "example.com", "", "my.localhost"] {
        let payload = CreateSiteRequest { domain: "d.example".to_string(), requires_auth: true };
        let refused = create_site(&mut registry, &site(remote, true), payload).unwrap_err();
        assert_eq!(refused, refusal(false));
        assert_eq!(refused.status, 401);
        assert_eq!(registry.tenants(), &before);
        assert_eq!(registry.max_bit(), 4);
    }
}

#[test]
fn create_site_is_refused_before_the_domain_is_looked_at() {
    let mut registry = three_sites();
    let payload = CreateSiteRequest { domain: "a.example".to_string(), requires_auth: true };
    assert_eq!(create_site(&mut registry, &site("blog.example", true), payload), Err(refusal(false)));
}

#[test]
fn create_site_reports_a_taken_domain_as_an_internal_error() {
    let mut registry = three_sites();
    let before = registry.tenants().clone();
    let payload = CreateSiteRequest { domain: "b.example".to_string(), requires_auth: true };
    assert_eq!(
        create_site(&mut registry, &site("127.0.0.1:8080", false), payload),
        Err(internal_error("the domain is registered already"))
    );
    assert_eq!(registry.tenants(), &before);
}

#[test]
fn create_site_reports_a_full_mask_as_an_internal_error() {
    let mut registry = TenantRegistry::from_rows(vec![Tenant {
        domain: "a.example".to_string(),
        bit: 1 << 30,
        requires_auth: false,
    }])
    .unwrap();
    let payload = CreateSiteRequest { domain: "b.example".to_string(), requires_auth: false };
    assert_eq!(
        create_site(&mut registry, &site("localhost", false), payload),
        Err(internal_error("the declared sites need more bits than the visibility mask has"))
    );
    assert_eq!(registry.len(), 1);
}

#[test]
fn registry_failures_are_internal_errors_with_their_cause() {
    assert_eq!(
        registry_failure(RegistryError::AllocationConflict),
        internal_error("the persisted sites do not hold one distinct bit each")
    );
    assert_eq!(
        registry_failure(RegistryError::DomainTaken).body().debug,
        None
    );
}

#[test]
fn request_bodies_hold_what_was_sent() {
    let post = CreatePostRequest {
        title: "t".to_string(),
        slug: Some("s".to_string()),
        content: "c".to_string(),
        tags: tags(&["x"]),
        visibility_mask: 3,
        signature: None,
        is_mature: true,
        summary: None,
    };
    assert_eq!(post.clone(), post);
    assert_eq!(post.visibility_mask, 3);
    let author = CreateAuthorRequest {
        name: "n".to_string(),
        bio: None,
        signing_email: Some("n@example.com".to_string()),
    };
    assert_eq!(author.signing_email, Some("n@example.com".to_string()));
    let social = AddSocialRequest {
        platform: "p".to_string(),
        handle: "h".to_string(),
        url: None,
        visibility_mask: 2,
    };
    let shown = SocialResponse {
        platform: social.platform.clone(),
        handle: social.handle.clone(),
        url: social.url.clone(),
        visibility_mask: social.visibility_mask,
    };
    assert!(can_read(&site("a.example", false), shown.visibility_mask));
}

#[test]
fn an_identifier_that_writes_a_uuid_selects_by_uuid() {
    assert_eq!(
        PostSelector::parse("a1a2a3a4-b1b2-c1c2-d1d2-d3d4d5d6d7d8".to_string()),
        PostSelector::ByUuid(0xa1a2a3a4b1b2c1c2d1d2d3d4d5d6d7d8)
    );
    assert_eq!(
        PostSelector::parse("A1A2A3A4B1B2C1C2D1D2D3D4D5D6D7D8".to_string()),
        PostSelector::ByUuid(0xa1a2a3a4b1b2c1c2d1d2d3d4d5d6d7d8)
    );
}

#[test]
fn any_other_identifier_is_a_slug() {
    for slug in ["my-first-post", "", "a1a2a3a4-b1b2-c1c2-d1d2", "not a uuid"] {
        assert_eq!(PostSelector::parse(slug.to_string()), PostSelector::BySlug(slug.to_string()));
    }
}

#[test]
fn selector_follows_the_parse_given() {
    assert_eq!(PostSelector::from_parsed("x".to_string(), Some(9)), PostSelector::ByUuid(9));
    assert_eq!(PostSelector::from_parsed("x".to_string(), None), PostSelector::BySlug("x".to_string()));
}

#[test]
fn a_tag_identifier_must_write_a_uuid() {
    let here = site("localhost", false);
    assert_eq!(
        parse_tag_id("00000000-0000-0000-0000-00000000002a", &here),
        Ok(42)
    );
    let e = parse_tag_id("forty-two", &here).unwrap_err();
    assert_eq!(
        e,
        AppError {
            status: 400,
            message: None,
            debug: Some(uuid::Uuid::parse_str("forty-two").unwrap_err().to_string()),
            is_local: true,
        }
    );
    assert!(!e.debug.unwrap().is_empty());
    let remote = parse_tag_id("forty-two", &site("a.example", false)).unwrap_err();
    assert!(!remote.is_local);
}

#[test]
fn a_failed_tag_identifier_keeps_its_cause_for_operators() {
    assert_eq!(tag_id_from_parsed(Ok(5), &site("a.example", false)), Ok(5));
    assert_eq!(
        tag_id_from_parsed(Err("invalid length".to_string()), &site("a.example", false)),
        Err(AppError {
            status: 400,
            message: None,
            debug: Some("invalid length".to_string()),
            is_local: false,
        })
    );
}
