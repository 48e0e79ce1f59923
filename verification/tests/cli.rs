use sitegen::cli::{exit_status, select_mode, Mode};
use sitegen::error::SiteError;

#[test]
fn each_flag_selects_its_mode() {
    assert_eq!(select_mode(Some("--serve")), Ok(Mode::Serve));
    assert_eq!(select_mode(Some("--build")), Ok(Mode::Build));
    assert_eq!(select_mode(Some("--test")), Ok(Mode::Test));
}

#[test]
fn anything_else_is_a_usage_error() {
    assert_eq!(select_mode(None), Err(SiteError::UsageError));
    assert_eq!(select_mode(Some("")), Err(SiteError::UsageError));
    assert_eq!(select_mode(Some("build")), Err(SiteError::UsageError));
    assert_eq!(select_mode(Some("--Build")), Err(SiteError::UsageError));
    assert_eq!(select_mode(Some("--build ")), Err(SiteError::UsageError));
    assert_eq!(select_mode(Some("--help")), Err(SiteError::UsageError));
}

#[test]
fn only_a_build_writes() {
    assert!(Mode::Build.writes());
    assert!(!Mode::Test.writes());
    assert!(!Mode::Serve.writes());
}

#[test]
fn exit_status_tells_failure_from_success() {
    assert_eq!(exit_status(None), 0);
    assert_eq!(exit_status(Some(SiteError::UsageError)), 1);
    assert_eq!(exit_status(Some(SiteError::MissingTemplate)), 1);
    assert_eq!(exit_status(Some(SiteError::MalformedSource)), 1);
}

#[test]
fn errors_describe_themselves() {
    assert_eq!(SiteError::MalformedSource.message(), "malformed source");
    assert_eq!(SiteError::MissingTemplate.message(), "missing template");
    assert_eq!(SiteError::InvalidTemplate.message(), "invalid template");
    assert_eq!(SiteError::IoFailure.message(), "i/o failure");
    assert_eq!(SiteError::NotFound.message(), "not found");
    assert_eq!(SiteError::UsageError.message(), "usage error");
}

#[test]
fn diagnostic_names_the_file() {
    assert_eq!(
        SiteError::MalformedSource.diagnostic("site/bad.md"),
        "site/bad.md: malformed source"
    );
    assert_eq!(SiteError::IoFailure.diagnostic(""), ": i/o failure");
}

#[test]
fn not_found_is_404_and_the_rest_500() {
    assert_eq!(SiteError::NotFound.http_status(), 404);
    assert_eq!(SiteError::MalformedSource.http_status(), 500);
    assert_eq!(SiteError::MissingTemplate.http_status(), 500);
    assert_eq!(SiteError::InvalidTemplate.http_status(), 500);
    assert_eq!(SiteError::IoFailure.http_status(), 500);
    assert_eq!(SiteError::UsageError.http_status(), 500);
}
