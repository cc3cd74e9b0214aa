use codebase_cli::api::config::Config;
use codebase_cli::commands::browse::build_browse_url;
use codebase_cli::git_context;

fn make_config(api_username: &str) -> Config {
    Config {
        api_username: api_username.to_string(),
        api_key: "test-api-key".to_string(),
    }
}

#[test]
fn test_config_account_parses_account_from_slash_format() {
    let config = make_config("sectormobile/samkrishna");
    assert_eq!(config.account(), "sectormobile");
}

#[test]
fn test_config_account_with_different_account_name() {
    let config = make_config("mycompany/alice");
    assert_eq!(config.account(), "mycompany");
}

#[test]
fn test_config_account_with_no_slash_returns_full_string() {
    let config = make_config("standaloneaccount");
    assert_eq!(config.account(), "standaloneaccount");
}

#[test]
fn test_config_account_with_empty_string_returns_empty() {
    let config = make_config("");
    assert_eq!(config.account(), "");
}

#[test]
fn test_config_account_with_multiple_slashes_returns_first_segment() {
    let config = make_config("company/user/extra");
    assert_eq!(config.account(), "company");
}

#[test]
fn test_config_username_parses_username_from_slash_format() {
    let config = make_config("sectormobile/samkrishna");
    assert_eq!(config.username(), "samkrishna");
}

#[test]
fn test_config_username_with_different_username() {
    let config = make_config("mycompany/alice");
    assert_eq!(config.username(), "alice");
}

#[test]
fn test_config_username_with_no_slash_returns_full_string() {
    // When there is no slash, username() falls back to the full api_username string.
    let config = make_config("standaloneaccount");
    assert_eq!(config.username(), "standaloneaccount");
}

#[test]
fn test_config_username_with_empty_string_returns_empty() {
    let config = make_config("");
    assert_eq!(config.username(), "");
}

#[test]
fn test_browse_url_project_only() {
    let url = build_browse_url("mycompany", "my-project", None);
    assert_eq!(url, "https://mycompany.codebasehq.com/projects/my-project");
}

#[test]
fn test_browse_url_with_ticket_number() {
    let url = build_browse_url("mycompany", "my-project", Some("42"));
    assert_eq!(
        url,
        "https://mycompany.codebasehq.com/projects/my-project/tickets/42"
    );
}

#[test]
fn test_browse_url_with_negative_number_treated_as_ticket() {
    // Negative integers still parse as i64, so they go to the tickets route.
    let url = build_browse_url("mycompany", "my-project", Some("-1"));
    assert_eq!(
        url,
        "https://mycompany.codebasehq.com/projects/my-project/tickets/-1"
    );
}

#[test]
fn test_browse_url_with_repo_permalink() {
    let url = build_browse_url("mycompany", "my-project", Some("main-repo"));
    assert_eq!(
        url,
        "https://mycompany.codebasehq.com/projects/my-project/repositories/main-repo"
    );
}

#[test]
fn test_browse_url_with_non_numeric_target_goes_to_repository() {
    let url = build_browse_url("acmecorp", "backend", Some("api-service"));
    assert_eq!(
        url,
        "https://acmecorp.codebasehq.com/projects/backend/repositories/api-service"
    );
}

#[test]
fn test_browse_url_account_comes_from_config_account_helper() {
    let config = make_config("sectormobile/samkrishna");
    let url = build_browse_url(config.account(), "myproject", None);
    assert_eq!(
        url,
        "https://sectormobile.codebasehq.com/projects/myproject"
    );
}

#[test]
fn test_detect_ssh_remote_with_account_project_repo() {
    let ctx = git_context::detect(Some("git@codebasehq.com:myaccount/myproject/myrepo.git"))
        .expect("should detect codebasehq SSH remote");
    assert_eq!(ctx.project, "myproject");
    assert_eq!(ctx.repo.as_deref(), Some("myrepo"));
}

#[test]
fn test_detect_ssh_remote_with_different_account_project_repo() {
    let ctx = git_context::detect(Some("git@codebasehq.com:acmecorp/backend-api/core.git"))
        .expect("should detect codebasehq SSH remote");
    assert_eq!(ctx.project, "backend-api");
    assert_eq!(ctx.repo.as_deref(), Some("core"));
}

#[test]
fn test_detect_ssh_remote_without_git_suffix() {
    let ctx = git_context::detect(Some("git@codebasehq.com:myaccount/myproject/myrepo"))
        .expect("should detect codebasehq SSH remote without .git suffix");
    assert_eq!(ctx.project, "myproject");
    assert_eq!(ctx.repo.as_deref(), Some("myrepo"));
}

#[test]
fn test_detect_ssh_remote_with_only_account_and_project() {
    let ctx = git_context::detect(Some("git@codebasehq.com:myaccount/myproject"))
        .expect("should detect codebasehq SSH remote with project only");
    assert_eq!(ctx.project, "myproject");
    assert!(
        ctx.repo.is_none(),
        "repo should be None when not present in URL"
    );
}

#[test]
fn test_detect_https_remote_with_account_project_repo() {
        let ctx = git_context::detect(Some("https://myaccount.codebasehq.com/myproject/myrepo.git"))
        .expect("should detect codebasehq HTTPS remote");
        assert_eq!(ctx.project, "myproject");
        assert_eq!(ctx.repo.as_deref(), Some("myrepo"));
}

#[test]
fn test_detect_https_remote_with_different_values() {
        let ctx = git_context::detect(Some("https://acmecorp.codebasehq.com/platform/services.git"))
        .expect("should detect codebasehq HTTPS remote");
        assert_eq!(ctx.project, "platform");
        assert_eq!(ctx.repo.as_deref(), Some("services"));
}

#[test]
fn test_detect_https_remote_without_git_suffix() {
    let ctx = git_context::detect(Some("https://myaccount.codebasehq.com/myproject/myrepo"))
        .expect("should detect codebasehq HTTPS remote without .git");
    assert_eq!(ctx.project, "myproject");
    assert_eq!(ctx.repo.as_deref(), Some("myrepo"));
}

#[test]
fn test_detect_https_remote_with_only_project() {
    let ctx = git_context::detect(Some("https://myaccount.codebasehq.com/myproject"))
        .expect("should detect codebasehq HTTPS remote with project only");
    assert_eq!(ctx.project, "myproject");
    assert!(
        ctx.repo.is_none(),
        "repo should be None when not present in HTTPS URL"
    );
}

#[test]
fn test_detect_github_remote_returns_none() {
    let ctx = git_context::detect(Some("git@github.com:user/repo.git"));
    assert!(
        ctx.is_none(),
        "GitHub remote must not be detected as a codebasehq context"
    );
}

#[test]
fn test_detect_gitlab_remote_returns_none() {
    let ctx = git_context::detect(Some("git@gitlab.com:group/project.git"));
    assert!(
        ctx.is_none(),
        "GitLab remote must not be detected as a codebasehq context"
    );
}

#[test]
fn test_detect_https_github_remote_returns_none() {
    let ctx = git_context::detect(Some("https://github.com/user/repo.git"));
    assert!(
        ctx.is_none(),
        "GitHub HTTPS remote must not be detected as a codebasehq context"
    );
}

#[test]
fn test_detect_does_not_panic() {
    // Either returns Some(GitContext) or None; must not panic.
    let _ = git_context::detect(None);
    let _ = git_context::detect(Some(""));
    let _ = git_context::detect(Some("codebasehq.com:"));
    let _ = git_context::detect(Some("codebasehq.com/"));
}

#[test]
fn test_detect_returns_none_for_non_codebase_remote() {
    assert!(git_context::detect(Some("git@example.org:team/tool.git")).is_none());
    assert!(git_context::detect(None).is_none());
}

#[test]
fn test_git_context_fields_are_strings() {
    // When a GitContext is returned its fields are non-empty strings.
    if let Some(ctx) = git_context::detect(Some("git@codebasehq.com:acme/site/web.git")) {
        assert!(
            !ctx.project.is_empty(),
            "project must be a non-empty string"
        );
        if let Some(ref repo) = ctx.repo {
            assert!(
                !repo.is_empty(),
                "repo must be a non-empty string when present"
            );
        }
    } else {
        panic!("a CodebaseHQ remote must be detected");
    }
}
