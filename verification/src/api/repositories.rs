//! Repositories: the repositories of a project, their commits, files,
//! hooks, branches, deployments and merge requests.

use vstd::prelude::*;
use vstd::string::*;
use crate::api::body::{cdata_text, element_text, field_text, XmlBody};
use crate::api::client::{opt_text, Method, Request};
use crate::api::codec::opt_str;
use crate::api::models::{
    Branches, Commits, Hook, Hooks, MergeRequest, MergeRequests, Repositories, Repository,
};
use crate::api::operation::{Ignored, Operation, RawText};
use crate::text::{decimal, push_decimal};

verus! {

/// The path of what belongs to repository `repo` of `project` under
/// `tail`.
pub open spec fn repo_path(project: Seq<char>, repo: Seq<char>, tail: Seq<char>) -> Seq<char> {
    "/"@ + project + "/"@ + repo + tail
}

fn path_of_repo(project: &str, repo: &str, tail: &str) -> (path: String)
    ensures
        path@ == repo_path(project@, repo@, tail@),
{
    let mut path = String::from_str("/");
    path.append(project);
    path.append("/");
    path.append(repo);
    path.append(tail);
    path
}

/// The repositories of `project`; the response is a `Repositories`.
pub fn list_repositories(project: &str) -> (r: Operation<Repositories>)
    ensures
        r.request.method == Method::Get,
        r.request.path@ == "/"@ + project@ + "/repositories"@,
        r.request.body is None,
{
    let mut path = String::from_str("/");
    path.append(project);
    path.append("/repositories");
    let request = Request::bare(Method::Get, path);
    Operation::new(request)
}

/// The repository `repo`; the response is a `Repository`.
pub fn show_repository(project: &str, repo: &str) -> (r: Operation<Repository>)
    ensures
        r.request.method == Method::Get,
        r.request.path@ == "/"@ + project@ + "/"@ + repo@,
        r.request.body is None,
{
    let mut path = String::from_str("/");
    path.append(project);
    path.append("/");
    path.append(repo);
    let request = Request::bare(Method::Get, path);
    Operation::new(request)
}

/// Creates a repository called `name` under the version control system
/// `scm`; the response is the `Repository`.
pub fn create_repository(project: &str, name: &str, scm: &str) -> (r: Operation<Repository>)
    ensures
        r.request.method == Method::Post,
        r.request.path@ == "/"@ + project@ + "/repositories"@,
        opt_text(r.request.body) == Some(
            element_text("repository"@, element_text("name"@, name@) + element_text("scm"@, scm@)),
        ),
{
    let mut body = XmlBody::new("repository");
    body.element("name", name);
    body.element("scm", scm);
    let mut path = String::from_str("/");
    path.append(project);
    path.append("/repositories");
    let request = Request::with_body(Method::Post, path, body.finish());
    Operation::new(request)
}

/// Deletes the repository `repo`; the response holds nothing of use.
pub fn delete_repository(project: &str, repo: &str) -> (r: Operation<Ignored>)
    ensures
        r.request.method == Method::Delete,
        r.request.path@ == "/"@ + project@ + "/"@ + repo@,
        r.request.body is None,
{
    let mut path = String::from_str("/");
    path.append(project);
    path.append("/");
    path.append(repo);
    let request = Request::bare(Method::Delete, path);
    Operation::new(request)
}

/// The commits on `git_ref`; the response is a `Commits`.
pub fn list_commits(project: &str, repo: &str, git_ref: &str) -> (r: Operation<Commits>)
    ensures
        r.request.method == Method::Get,
        r.request.path@ == repo_path(project@, repo@, "/commits/"@) + git_ref@,
        r.request.body is None,
{
    let mut path = path_of_repo(project, repo, "/commits/");
    path.append(git_ref);
    let request = Request::bare(Method::Get, path);
    Operation::new(request)
}

/// The commits on `git_ref` that touch `path`; the response is a
/// `Commits`.
pub fn list_commits_path(project: &str, repo: &str, git_ref: &str, path: &str) -> (r: Operation<Commits>)
    ensures
        r.request.method == Method::Get,
        r.request.path@ == repo_path(project@, repo@, "/commits/"@) + git_ref@ + "/"@ + path@,
        r.request.body is None,
{
    let mut full = path_of_repo(project, repo, "/commits/");
    full.append(git_ref);
    full.append("/");
    full.append(path);
    let request = Request::bare(Method::Get, full);
    Operation::new(request)
}

/// Records a deployment of `revision` of `branch` to `servers`, in
/// `environment` where one is named; the response holds nothing of use.
pub fn create_deployment(
    project: &str,
    repo: &str,
    branch: &str,
    revision: &str,
    servers: &str,
    environment: Option<&str>,
) -> (r: Operation<Ignored>)
    ensures
        r.request.method == Method::Post,
        r.request.path@ == repo_path(project@, repo@, "/deployments"@),
        opt_text(r.request.body) == Some(
            element_text(
                "deployment"@,
                element_text("branch"@, branch@) + element_text("revision"@, revision@)
                    + element_text("servers"@, servers@) + field_text(
                    "environment"@,
                    opt_str(environment),
                ),
            ),
        ),
{
    let mut body = XmlBody::new("deployment");
    body.element("branch", branch);
    body.element("revision", revision);
    body.element("servers", servers);
    body.text("environment", environment);
    let request = Request::with_body(Method::Post, path_of_repo(project, repo, "/deployments"), body.finish());
    Operation::new(request)
}

/// The file `path` as it is on `git_ref`; the response is the file's
/// content, which is no XML and is passed on as it comes.
pub fn get_file(project: &str, repo: &str, git_ref: &str, path: &str) -> (r: Operation<RawText>)
    ensures
        r.request.method == Method::Get,
        r.request.path@ == repo_path(project@, repo@, "/blob/"@) + git_ref@ + "/"@ + path@,
        r.request.body is None,
{
    let mut full = path_of_repo(project, repo, "/blob/");
    full.append(git_ref);
    full.append("/");
    full.append(path);
    let request = Request::bare(Method::Get, full);
    Operation::new(request)
}

/// The hooks of `repo`; the response is a `Hooks`.
pub fn list_hooks(project: &str, repo: &str) -> (r: Operation<Hooks>)
    ensures
        r.request.method == Method::Get,
        r.request.path@ == repo_path(project@, repo@, "/hooks"@),
        r.request.body is None,
{
    let request = Request::bare(Method::Get, path_of_repo(project, repo, "/hooks"));
    Operation::new(request)
}

/// Adds a hook that calls `url`, with the credentials supplied; the
/// response is the `Hook`.
pub fn create_hook(
    project: &str,
    repo: &str,
    url: &str,
    username: Option<&str>,
    password: Option<&str>,
) -> (r: Operation<Hook>)
    ensures
        r.request.method == Method::Post,
        r.request.path@ == repo_path(project@, repo@, "/hooks"@),
        opt_text(r.request.body) == Some(
            element_text(
                "repository-hook"@,
                element_text("url"@, url@) + field_text("username"@, opt_str(username))
                    + field_text("password"@, opt_str(password)),
            ),
        ),
{
    let mut body = XmlBody::new("repository-hook");
    body.element("url", url);
    body.text("username", username);
    body.text("password", password);
    let request = Request::with_body(Method::Post, path_of_repo(project, repo, "/hooks"), body.finish());
    Operation::new(request)
}

/// The branches of `repo`; the response is a `Branches`.
pub fn list_branches(project: &str, repo: &str) -> (r: Operation<Branches>)
    ensures
        r.request.method == Method::Get,
        r.request.path@ == repo_path(project@, repo@, "/branches"@),
        r.request.body is None,
{
    let request = Request::bare(Method::Get, path_of_repo(project, repo, "/branches"));
    Operation::new(request)
}

/// The merge requests of `repo`; the response is a `MergeRequests`.
pub fn list_merge_requests(project: &str, repo: &str) -> (r: Operation<MergeRequests>)
    ensures
        r.request.method == Method::Get,
        r.request.path@ == repo_path(project@, repo@, "/merge_requests"@),
        r.request.body is None,
{
    let request = Request::bare(Method::Get, path_of_repo(project, repo, "/merge_requests"));
    Operation::new(request)
}

/// The path of merge request `mr_id` of `repo`, or of the action `tail`
/// on it.
pub open spec fn merge_request_path(
    project: Seq<char>,
    repo: Seq<char>,
    mr_id: i64,
    tail: Seq<char>,
) -> Seq<char> {
    repo_path(project, repo, "/merge_requests/"@) + decimal(mr_id as int) + tail
}

fn path_of_merge_request(project: &str, repo: &str, mr_id: i64, tail: &str) -> (path: String)
    ensures
        path@ == merge_request_path(project@, repo@, mr_id, tail@),
{
    let mut path = path_of_repo(project, repo, "/merge_requests/");
    push_decimal(&mut path, mr_id);
    path.append(tail);
    path
}

/// The merge request `mr_id`; the response is a `MergeRequest`.
pub fn show_merge_request(project: &str, repo: &str, mr_id: i64) -> (r: Operation<MergeRequest>)
    ensures
        r.request.method == Method::Get,
        r.request.path@ == repo_path(project@, repo@, "/merge_requests/"@) + decimal(mr_id as int),
        r.request.body is None,
{
    let mut path = path_of_repo(project, repo, "/merge_requests/");
    push_decimal(&mut path, mr_id);
    let request = Request::bare(Method::Get, path);
    Operation::new(request)
}

/// Asks to merge `source_ref` into `target_ref`; the response is the
/// `MergeRequest`.
pub fn create_merge_request(
    project: &str,
    repo: &str,
    source_ref: &str,
    target_ref: &str,
    subject: &str,
) -> (r: Operation<MergeRequest>)
    ensures
        r.request.method == Method::Post,
        r.request.path@ == repo_path(project@, repo@, "/merge_requests"@),
        opt_text(r.request.body) == Some(
            element_text(
                "merge-request"@,
                element_text("source-ref"@, source_ref@) + element_text("target-ref"@, target_ref@)
                    + element_text("subject"@, subject@),
            ),
        ),
{
    let mut body = XmlBody::new("merge-request");
    body.element("source-ref", source_ref);
    body.element("target-ref", target_ref);
    body.element("subject", subject);
    let request = Request::with_body(Method::Post, path_of_repo(project, repo, "/merge_requests"), body.finish());
    Operation::new(request)
}

/// Comments on merge request `mr_id`, the comment in a CDATA section; the
/// response holds nothing of use.
pub fn comment_merge_request(project: &str, repo: &str, mr_id: i64, content: &str) -> (r: Operation<Ignored>)
    ensures
        r.request.method == Method::Post,
        r.request.path@ == merge_request_path(project@, repo@, mr_id, "/comment"@),
        opt_text(r.request.body) == Some(
            element_text(
                "merge-request-comment"@,
                element_text("content"@, cdata_text(content@)),
            ),
        ),
{
    let mut body = XmlBody::new("merge-request-comment");
    body.cdata("content", Some(content));
    let request = Request::with_body(
        Method::Post,
        path_of_merge_request(project, repo, mr_id, "/comment"),
        body.finish(),
    );
    Operation::new(request)
}

fn act_on_merge_request(project: &str, repo: &str, mr_id: i64, action: &str) -> (r: Request)
    ensures
        r.method == Method::Post,
        r.path@ == merge_request_path(project@, repo@, mr_id, action@),
        opt_text(r.body) == Some(Seq::<char>::empty()),
{
    Request::with_body(
        Method::Post,
        path_of_merge_request(project, repo, mr_id, action),
        String::new(),
    )
}

/// Closes merge request `mr_id`, with an empty body.
pub fn close_merge_request(project: &str, repo: &str, mr_id: i64) -> (r: Operation<Ignored>)
    ensures
        r.request.method == Method::Post,
        r.request.path@ == merge_request_path(project@, repo@, mr_id, "/close"@),
        opt_text(r.request.body) == Some(Seq::<char>::empty()),
{
    let request = act_on_merge_request(project, repo, mr_id, "/close");
    Operation::new(request)
}

/// Reopens merge request `mr_id`, with an empty body.
pub fn reopen_merge_request(project: &str, repo: &str, mr_id: i64) -> (r: Operation<Ignored>)
    ensures
        r.request.method == Method::Post,
        r.request.path@ == merge_request_path(project@, repo@, mr_id, "/reopen"@),
        opt_text(r.request.body) == Some(Seq::<char>::empty()),
{
    let request = act_on_merge_request(project, repo, mr_id, "/reopen");
    Operation::new(request)
}

/// Merges merge request `mr_id`, with an empty body.
pub fn merge_merge_request(project: &str, repo: &str, mr_id: i64) -> (r: Operation<Ignored>)
    ensures
        r.request.method == Method::Post,
        r.request.path@ == merge_request_path(project@, repo@, mr_id, "/merge"@),
        opt_text(r.request.body) == Some(Seq::<char>::empty()),
{
    let request = act_on_merge_request(project, repo, mr_id, "/merge");
    Operation::new(request)
}

/// Hands merge request `mr_id` to the user `user_id`; the response holds
/// nothing of use.
pub fn reassign_merge_request(project: &str, repo: &str, mr_id: i64, user_id: i64) -> (r: Operation<Ignored>)
    ensures
        r.request.method == Method::Post,
        r.request.path@ == merge_request_path(project@, repo@, mr_id, "/reassign"@),
        opt_text(r.request.body) == Some(
            element_text("merge-request"@, element_text("user-id"@, decimal(user_id as int))),
        ),
{
    let mut body = XmlBody::new("merge-request");
    body.integer("user-id", Some(user_id));
    let request = Request::with_body(
        Method::Post,
        path_of_merge_request(project, repo, mr_id, "/reassign"),
        body.finish(),
    );
    Operation::new(request)
}

} // verus!
