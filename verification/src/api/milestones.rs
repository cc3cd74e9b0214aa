//! Milestones: listing, creating and updating them.

use vstd::prelude::*;
use vstd::string::*;
use crate::api::body::{
    cdata_field_text, element_text, enclosed, field_text, fields_text, int_field_text,
    law_body_holds_supplied_fields_only, supplied, written, XmlBody,
};
use crate::api::client::{opt_text, Method, Request};
use crate::api::codec::opt_str;
use crate::api::models::{Milestone, Milestones};
use crate::api::operation::Operation;
use crate::text::{decimal, push_decimal};

verus! {

/// The milestones of `project`; the response is a `Milestones`.
pub fn list_milestones(project: &str) -> (r: Operation<Milestones>)
    ensures
        r.request.method == Method::Get,
        r.request.path@ == "/"@ + project@ + "/milestones"@,
        r.request.body is None,
{
    let mut path = String::from_str("/");
    path.append(project);
    path.append("/milestones");
    let request = Request::bare(Method::Get, path);
    Operation::new(request)
}

/// The body that creates or updates a milestone: one element for each
/// field supplied, in this order, the description in a CDATA section.
pub open spec fn milestone_body(
    name: Option<Seq<char>>,
    description: Option<Seq<char>>,
    start_at: Option<Seq<char>>,
    deadline: Option<Seq<char>>,
    responsible_user_id: Option<i64>,
    parent_id: Option<i64>,
    status: Option<Seq<char>>,
) -> Seq<char> {
    element_text(
        "ticketing-milestone"@,
        field_text("name"@, name) + cdata_field_text("description"@, description) + field_text(
            "start-at"@,
            start_at,
        ) + field_text("deadline"@, deadline) + int_field_text(
            "responsible-user-id"@,
            responsible_user_id,
        ) + int_field_text("parent-id"@, parent_id) + field_text("status"@, status),
    )
}

/// The fields of a milestone body, each with its value as written, in the
/// order in which they are sent.
pub open spec fn milestone_fields(
    name: Option<Seq<char>>,
    description: Option<Seq<char>>,
    start_at: Option<Seq<char>>,
    deadline: Option<Seq<char>>,
    responsible_user_id: Option<i64>,
    parent_id: Option<i64>,
    status: Option<Seq<char>>,
) -> Seq<(Seq<char>, Option<Seq<char>>)> {
    seq![
        ("name"@, name),
        ("description"@, enclosed(description)),
        ("start-at"@, start_at),
        ("deadline"@, deadline),
        ("responsible-user-id"@, written(responsible_user_id)),
        ("parent-id"@, written(parent_id)),
        ("status"@, status),
    ]
}

/// The body that creates or updates a milestone holds the elements of the
/// fields supplied, in order, and no others: a field left out has no
/// element, not even an empty one.
pub proof fn law_milestone_body_holds_supplied_fields_only(
    name: Option<Seq<char>>,
    description: Option<Seq<char>>,
    start_at: Option<Seq<char>>,
    deadline: Option<Seq<char>>,
    responsible_user_id: Option<i64>,
    parent_id: Option<i64>,
    status: Option<Seq<char>>,
)
    ensures
        milestone_body(
            name,
            description,
            start_at,
            deadline,
            responsible_user_id,
            parent_id,
            status,
        ) == element_text(
            "ticketing-milestone"@,
            fields_text(
                supplied(
                    milestone_fields(
                        name,
                        description,
                        start_at,
                        deadline,
                        responsible_user_id,
                        parent_id,
                        status,
                    ),
                ),
            ),
        ),
{
    let fields = milestone_fields(
        name,
        description,
        start_at,
        deadline,
        responsible_user_id,
        parent_id,
        status,
    );
    law_body_holds_supplied_fields_only(fields);
    let f6 = fields.drop_last();
    let f5 = f6.drop_last();
    let f4 = f5.drop_last();
    let f3 = f4.drop_last();
    let f2 = f3.drop_last();
    let f1 = f2.drop_last();
    let f0 = f1.drop_last();
    assert(fields_text(f0) =~= Seq::<char>::empty());
    assert(f1.last() == fields[0] && f2.last() == fields[1] && f3.last() == fields[2]);
    assert(f4.last() == fields[3] && f5.last() == fields[4] && f6.last() == fields[5]);
    assert(fields.last() == fields[6]);
    assert(fields_text(f1) =~= field_text("name"@, name));
    assert(fields_text(f2) == fields_text(f1) + cdata_field_text("description"@, description));
    assert(fields_text(f3) == fields_text(f2) + field_text("start-at"@, start_at));
    assert(fields_text(f4) == fields_text(f3) + field_text("deadline"@, deadline));
    assert(fields_text(f5) == fields_text(f4) + int_field_text(
        "responsible-user-id"@,
        responsible_user_id,
    ));
    assert(fields_text(f6) == fields_text(f5) + int_field_text("parent-id"@, parent_id));
    assert(fields_text(fields) == fields_text(f6) + field_text("status"@, status));
}

fn write_milestone(
    name: Option<&str>,
    description: Option<&str>,
    start_at: Option<&str>,
    deadline: Option<&str>,
    responsible_user_id: Option<i64>,
    parent_id: Option<i64>,
    status: Option<&str>,
) -> (body: String)
    ensures
        body@ == milestone_body(
            opt_str(name),
            opt_str(description),
            opt_str(start_at),
            opt_str(deadline),
            responsible_user_id,
            parent_id,
            opt_str(status),
        ),
{
    let mut body = XmlBody::new("ticketing-milestone");
    body.text("name", name);
    body.cdata("description", description);
    body.text("start-at", start_at);
    body.text("deadline", deadline);
    body.integer("responsible-user-id", responsible_user_id);
    body.integer("parent-id", parent_id);
    body.text("status", status);
    body.finish()
}

/// Creates a milestone called `name` in `project`; the response is the
/// `Milestone`.
pub fn create_milestone(
    project: &str,
    name: &str,
    description: Option<&str>,
    start_at: Option<&str>,
    deadline: Option<&str>,
    responsible_user_id: Option<i64>,
    parent_id: Option<i64>,
    status: Option<&str>,
) -> (r: Operation<Milestone>)
    ensures
        r.request.method == Method::Post,
        r.request.path@ == "/"@ + project@ + "/milestones"@,
        opt_text(r.request.body) == Some(
            milestone_body(
                Some(name@),
                opt_str(description),
                opt_str(start_at),
                opt_str(deadline),
                responsible_user_id,
                parent_id,
                opt_str(status),
            ),
        ),
{
    let body = write_milestone(
        Some(name),
        description,
        start_at,
        deadline,
        responsible_user_id,
        parent_id,
        status,
    );
    let mut path = String::from_str("/");
    path.append(project);
    path.append("/milestones");
    let request = Request::with_body(Method::Post, path, body);
    Operation::new(request)
}

/// Updates the fields supplied of milestone `milestone_id`; the response
/// is the `Milestone`.
pub fn update_milestone(
    project: &str,
    milestone_id: i64,
    name: Option<&str>,
    description: Option<&str>,
    start_at: Option<&str>,
    deadline: Option<&str>,
    responsible_user_id: Option<i64>,
    parent_id: Option<i64>,
    status: Option<&str>,
) -> (r: Operation<Milestone>)
    ensures
        r.request.method == Method::Put,
        r.request.path@ == "/"@ + project@ + "/milestones/"@ + decimal(milestone_id as int),
        opt_text(r.request.body) == Some(
            milestone_body(
                opt_str(name),
                opt_str(description),
                opt_str(start_at),
                opt_str(deadline),
                responsible_user_id,
                parent_id,
                opt_str(status),
            ),
        ),
{
    let body = write_milestone(
        name,
        description,
        start_at,
        deadline,
        responsible_user_id,
        parent_id,
        status,
    );
    let mut path = String::from_str("/");
    path.append(project);
    path.append("/milestones/");
    push_decimal(&mut path, milestone_id);
    let request = Request::with_body(Method::Put, path, body);
    Operation::new(request)
}

} // verus!
