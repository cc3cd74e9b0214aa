use codebase_cli::git_context::parse_codebase_remote;

#[test]
fn test_parse_ssh_remote() {
    let url = "git@codebasehq.com:mycompany/myproject/myrepo.git";
    let ctx = parse_codebase_remote(url).unwrap();
    assert_eq!(ctx.project, "myproject");
    assert_eq!(ctx.repo.unwrap(), "myrepo");
}

#[test]
fn test_parse_https_remote() {
    let url = "https://mycompany.codebasehq.com/myproject/myrepo.git";
    let ctx = parse_codebase_remote(url).unwrap();
    assert_eq!(ctx.project, "myproject");
    assert_eq!(ctx.repo.unwrap(), "myrepo");
}

#[test]
fn test_parse_ssh_no_git_suffix() {
    let url = "git@codebasehq.com:mycompany/myproject/myrepo";
    let ctx = parse_codebase_remote(url).unwrap();
    assert_eq!(ctx.project, "myproject");
    assert_eq!(ctx.repo.unwrap(), "myrepo");
}

#[test]
fn test_parse_non_codebase_remote() {
    let url = "git@github.com:user/repo.git";
    assert!(parse_codebase_remote(url).is_none());
}
