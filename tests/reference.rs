use amp_apiserver::errors::ApiError;
use amp_apiserver::reference::{repo, repo_name, short_name_from_path, GitReference};

fn git_ref(branch: Option<&str>, tag: Option<&str>, rev: Option<&str>) -> GitReference {
    GitReference {
        repo: "https://github.com/acme/app.git".to_string(),
        branch: branch.map(|s| s.to_string()),
        tag: tag.map(|s| s.to_string()),
        rev: rev.map(|s| s.to_string()),
    }
}

#[test]
fn short_name_strips_host_and_git_suffix() {
    assert_eq!(repo("https://github.com/acme/app.git").unwrap(), "acme/app");
}

#[test]
fn short_name_without_git_suffix() {
    assert_eq!(repo("https://github.com/amphitheatre-app/amphitheatre").unwrap(), "amphitheatre-app/amphitheatre");
}

#[test]
fn short_name_of_other_scheme_and_host() {
    assert_eq!(repo("ssh://git.example.org/owner/tool.git").unwrap(), "owner/tool");
}

#[test]
fn short_name_rejects_relative_address() {
    assert!(matches!(repo("acme/app"), Err(ApiError::InvalidRepoAddress(_))));
}

#[test]
fn short_name_rejects_empty_address() {
    assert!(matches!(repo(""), Err(ApiError::InvalidRepoAddress(_))));
}

#[test]
fn short_name_from_path_cases() {
    assert_eq!(short_name_from_path("/acme/app.git"), "acme/app");
    assert_eq!(short_name_from_path("/acme/app"), "acme/app");
    assert_eq!(short_name_from_path("acme/app.git"), "acme/app");
    assert_eq!(short_name_from_path("/"), "");
    assert_eq!(short_name_from_path(""), "");
    assert_eq!(short_name_from_path("/.git"), "");
    assert_eq!(short_name_from_path("/a/b.gi"), "a/b.gi");
}

#[test]
fn repo_name_is_second_segment() {
    assert_eq!(repo_name("acme/app"), Some("app".to_string()));
    assert_eq!(repo_name("acme/app/extra"), Some("app".to_string()));
    assert_eq!(repo_name("acme/"), Some(String::new()));
    assert_eq!(repo_name("acme"), None);
    assert_eq!(repo_name(""), None);
}

#[test]
fn reference_needs_a_selector() {
    assert_eq!(git_ref(None, None, None).reference(), None);
}

#[test]
fn reference_ignores_empty_selectors() {
    assert_eq!(git_ref(Some(""), Some(""), Some("")).reference(), None);
    assert_eq!(git_ref(Some("main"), None, Some("")).reference(), Some("main".to_string()));
}

#[test]
fn reference_single_selector() {
    assert_eq!(git_ref(Some("main"), None, None).reference(), Some("main".to_string()));
    assert_eq!(git_ref(None, Some("v1.0"), None).reference(), Some("v1.0".to_string()));
    assert_eq!(git_ref(None, None, Some("4c59b707")).reference(), Some("4c59b707".to_string()));
}

#[test]
fn reference_precedence_rev_tag_branch() {
    assert_eq!(git_ref(Some("main"), Some("v1.0"), Some("4c59b707")).reference(), Some("4c59b707".to_string()));
    assert_eq!(git_ref(Some("main"), Some("v1.0"), None).reference(), Some("v1.0".to_string()));
}
