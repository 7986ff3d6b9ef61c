use backend::error::{
    is_local, AppError, ErrorBody, BAD_REQUEST, INTERNAL_SERVER_ERROR, NOT_FOUND, UNAUTHORIZED,
};
use backend::extractors::SiteIdentity;
use backend::text::{copy_opt, starts_with};

fn site(domain: &str) -> SiteIdentity {
    SiteIdentity { mask: 1, domain: domain.to_string(), requires_auth: true, gpg_email: None }
}

#[test]
fn new_error_carries_only_its_status() {
    assert_eq!(
        AppError::new(418),
        AppError { status: 418, message: None, debug: None, is_local: false }
    );
}

#[test]
fn shortcuts_have_their_status() {
    assert_eq!(AppError::bad_request(), AppError::new(400));
    assert_eq!(AppError::unauthorized(), AppError::new(401));
    assert_eq!(AppError::not_found(), AppError::new(404));
    assert_eq!((BAD_REQUEST, UNAUTHORIZED, NOT_FOUND, INTERNAL_SERVER_ERROR), (400, 401, 404, 500));
}

#[test]
fn message_and_debug_are_set_apart() {
    let e = AppError::new(500).with_message("shown".to_string()).with_debug("hidden".to_string());
    assert_eq!(
        e,
        AppError {
            status: 500,
            message: Some("shown".to_string()),
            debug: Some("hidden".to_string()),
            is_local: false,
        }
    );
    let again = e.with_message("other".to_string());
    assert_eq!(again.message, Some("other".to_string()));
    assert_eq!(again.debug, Some("hidden".to_string()));
}

#[test]
fn local_sites_are_localhost_and_loopback() {
    for local in ["localhost", "localhost:3000", "127.0.0.1", "127.0.0.1:8080", "localhost.evil.example"] {
        assert!(is_local(local));
        assert!(AppError::not_found().at_site(&site(local)).is_local);
    }
    for remote in ["example.com", "", "local", "127.0.0.2", "my.localhost", " localhost", "LOCALHOST"] {
        assert!(!is_local(remote));
        assert!(!AppError::not_found().at_site(&site(remote)).is_local);
    }
}

#[test]
fn at_site_keeps_everything_else() {
    let e = AppError::bad_request()
        .with_message("m".to_string())
        .with_debug("d".to_string())
        .at_site(&site("localhost"));
    assert_eq!(
        e,
        AppError {
            status: 400,
            message: Some("m".to_string()),
            debug: Some("d".to_string()),
            is_local: true,
        }
    );
    assert!(!e.at_site(&site("example.com")).is_local);
}

#[test]
fn database_failures_are_internal_errors() {
    assert_eq!(
        AppError::database("connection refused".to_string()),
        AppError {
            status: 500,
            message: Some("A database error occurred".to_string()),
            debug: Some("connection refused".to_string()),
            is_local: false,
        }
    );
}

#[test]
fn other_failures_are_internal_errors() {
    assert_eq!(
        AppError::unexpected("boom".to_string()),
        AppError {
            status: 500,
            message: Some("An unexpected system error occurred".to_string()),
            debug: Some("boom".to_string()),
            is_local: false,
        }
    );
}

#[test]
fn body_hides_the_cause_from_remote_sites() {
    let e = AppError::database("relation posts does not exist".to_string()).at_site(&site("example.com"));
    assert_eq!(
        e.body(),
        ErrorBody {
            code: 500,
            status: "Internal Server Error".to_string(),
            message: Some("A database error occurred".to_string()),
            debug: None,
        }
    );
}

#[test]
fn body_shows_the_cause_to_local_sites() {
    let e = AppError::database("relation posts does not exist".to_string()).at_site(&site("localhost:3000"));
    assert_eq!(
        e.body(),
        ErrorBody {
            code: 500,
            status: "Internal Server Error".to_string(),
            message: Some("A database error occurred".to_string()),
            debug: Some("relation posts does not exist".to_string()),
        }
    );
}

#[test]
fn body_names_the_status_by_its_reason_phrase() {
    assert_eq!(AppError::not_found().body().status, "Not Found");
    assert_eq!(AppError::unauthorized().body().status, "Unauthorized");
    assert_eq!(AppError::bad_request().body().status, "Bad Request");
    assert_eq!(AppError::new(200).body().status, "OK");
    assert_eq!(AppError::not_found().body().code, 404);
}

#[test]
fn body_of_a_status_without_phrase_is_unknown() {
    assert_eq!(AppError::new(999).body().status, "Unknown");
    assert_eq!(AppError::new(0).body().status, "Unknown");
    assert_eq!(AppError::new(65535).body().status, "Unknown");
    assert_eq!(AppError::new(0).body().code, 0);
}

#[test]
fn body_with_reason_takes_the_phrase_given() {
    let e = AppError::new(500).with_debug("d".to_string());
    assert_eq!(
        e.body_with_reason(Some("Teapot")),
        ErrorBody { code: 500, status: "Teapot".to_string(), message: None, debug: None }
    );
    assert_eq!(e.body_with_reason(None).status, "Unknown");
}

#[test]
fn starts_with_compares_characters() {
    assert!(starts_with("localhost", "local"));
    assert!(starts_with("abc", ""));
    assert!(starts_with("", ""));
    assert!(starts_with("äöü", "äö"));
    assert!(!starts_with("ab", "abc"));
    assert!(!starts_with("abc", "abd"));
    assert!(!starts_with("", "a"));
    assert!(!starts_with("aöü", "äö"));
}

#[test]
fn copy_opt_copies() {
    assert_eq!(copy_opt(&Some("x".to_string())), Some("x".to_string()));
    assert_eq!(copy_opt(&None), None);
}
