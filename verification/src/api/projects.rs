//! Projects: listing, showing, creating, updating and deleting them, their
//! groups and the users assigned to them.

use vstd::prelude::*;
use vstd::string::*;
use crate::api::body::{element_text, field_text, XmlBody};
use crate::api::client::{opt_text, Method, Request};
use crate::api::codec::opt_str;
use crate::api::models::{Project, ProjectGroups, ProjectUsers, Projects};
use crate::api::operation::{Ignored, Operation};
use crate::text::decimal;

verus! {

/// The projects of the account; the response is a `Projects`.
pub fn list_projects() -> (r: Operation<Projects>)
    ensures
        r.request.method == Method::Get,
        r.request.path@ == "/projects"@,
        r.request.body is None,
{
    let request = Request::bare(Method::Get, String::from_str("/projects"));
    Operation::new(request)
}

/// The project `permalink`; the response is a `Project`.
pub fn show_project(permalink: &str) -> (r: Operation<Project>)
    ensures
        r.request.method == Method::Get,
        r.request.path@ == "/"@ + permalink@,
        r.request.body is None,
{
    let mut path = String::from_str("/");
    path.append(permalink);
    let request = Request::bare(Method::Get, path);
    Operation::new(request)
}

/// Creates a project called `name`; the response is the `Project`.
pub fn create_project(name: &str) -> (r: Operation<Project>)
    ensures
        r.request.method == Method::Post,
        r.request.path@ == "/create_project"@,
        opt_text(r.request.body) == Some(element_text("project"@, element_text("name"@, name@))),
{
    let mut body = XmlBody::new("project");
    body.element("name", name);
    let request = Request::with_body(Method::Post, String::from_str("/create_project"), body.finish());
    Operation::new(request)
}

/// Updates the name or the status of project `project_id`, whichever is
/// supplied; the response is the `Project`.
pub fn update_project(project_id: &str, name: Option<&str>, status: Option<&str>) -> (r: Operation<Project>)
    ensures
        r.request.method == Method::Put,
        r.request.path@ == "/project/"@ + project_id@,
        opt_text(r.request.body) == Some(
            element_text(
                "project"@,
                field_text("name"@, opt_str(name)) + field_text("status"@, opt_str(status)),
            ),
        ),
{
    let mut body = XmlBody::new("project");
    body.text("name", name);
    body.text("status", status);
    let mut path = String::from_str("/project/");
    path.append(project_id);
    let request = Request::with_body(Method::Put, path, body.finish());
    Operation::new(request)
}

/// Deletes the project `permalink`; the response holds nothing of use.
pub fn delete_project(permalink: &str) -> (r: Operation<Ignored>)
    ensures
        r.request.method == Method::Delete,
        r.request.path@ == "/"@ + permalink@,
        r.request.body is None,
{
    let mut path = String::from_str("/");
    path.append(permalink);
    let request = Request::bare(Method::Delete, path);
    Operation::new(request)
}

/// The project groups of the account; the response is a `ProjectGroups`.
pub fn list_project_groups() -> (r: Operation<ProjectGroups>)
    ensures
        r.request.method == Method::Get,
        r.request.path@ == "/project_groups"@,
        r.request.body is None,
{
    let request = Request::bare(Method::Get, String::from_str("/project_groups"));
    Operation::new(request)
}

/// The users assigned to `project`; the response is a `ProjectUsers`.
pub fn list_project_users(project: &str) -> (r: Operation<ProjectUsers>)
    ensures
        r.request.method == Method::Get,
        r.request.path@ == "/"@ + project@ + "/assignments"@,
        r.request.body is None,
{
    let mut path = String::from_str("/");
    path.append(project);
    path.append("/assignments");
    let request = Request::bare(Method::Get, path);
    Operation::new(request)
}

/// One `user` element for each of `ids`, in order, each with the number
/// as its `id`.
pub open spec fn user_elements(ids: Seq<i64>) -> Seq<char>
    decreases ids.len(),
{
    if ids.len() == 0 {
        Seq::empty()
    } else {
        user_elements(ids.drop_last()) + element_text(
            "user"@,
            element_text("id"@, decimal(ids.last() as int)),
        )
    }
}

/// Assigns the users `user_ids` to `project`; the response holds nothing
/// of use.
pub fn assign_project_users(project: &str, user_ids: &Vec<i64>) -> (r: Operation<Ignored>)
    ensures
        r.request.method == Method::Post,
        r.request.path@ == "/"@ + project@ + "/assignments"@,
        opt_text(r.request.body) == Some(element_text("users"@, user_elements(user_ids@))),
{
    let mut body = XmlBody::new("users");
    let mut i: usize = 0;
    while i < user_ids.len()
        invariant
            i <= user_ids.len(),
            body.root@ == "users"@,
            body.content@ == user_elements(user_ids@.take(i as int)),
        decreases user_ids.len() - i,
    {
        assert(user_ids@.take(i + 1).drop_last() =~= user_ids@.take(i as int));
        let mut user = XmlBody::new("user");
        user.integer("id", Some(user_ids[i]));
        let written = user.finish();
        body.raw(written.as_str());
        i += 1;
    }
    assert(user_ids@.take(user_ids@.len() as int) =~= user_ids@);
    let mut path = String::from_str("/");
    path.append(project);
    path.append("/assignments");
    let request = Request::with_body(Method::Post, path, body.finish());
    Operation::new(request)
}

} // verus!
