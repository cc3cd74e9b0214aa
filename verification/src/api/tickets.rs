//! Tickets: listing and searching them, creating them, their notes and
//! watchers, and the statuses, priorities, categories and types of a
//! project.
//!
//! Each function gives one operation: the request to send, and in its type
//! the record that the response is read as.

use vstd::prelude::*;
use vstd::string::*;
use crate::api::body::{
    cdata_field_text, element_text, enclosed, field_text, fields_text, int_field_text,
    law_body_holds_supplied_fields_only, supplied, written, XmlBody,
};
use crate::api::client::{opt_text, Method, Request};
use crate::api::codec::opt_str;
use crate::api::models::{
    NoteChanges, Ticket, TicketCategories, TicketNote, TicketNotes, TicketPriorities, TicketStatuses, TicketTypes, Tickets, Watchers,
};
use crate::api::operation::{Ignored, Operation};
use crate::text::{decimal, push_decimal};

verus! {

/// The tickets of `project`; the response is a `Tickets`.
pub fn list_tickets(project: &str) -> (r: Operation<Tickets>)
    ensures
        r.request.method == Method::Get,
        r.request.path@ == "/"@ + project@ + "/tickets"@,
        r.request.body is None,
{
    let mut path = String::from_str("/");
    path.append(project);
    path.append("/tickets");
    let request = Request::bare(Method::Get, path);
    Operation::new(request)
}

/// What stands for `c` in a query string: a space, a colon and an equals
/// sign are written as `%20`, `%3A` and `%3D`, every other character as
/// itself.
pub open spec fn encoded_char(c: char) -> Seq<char> {
    if c == ' ' {
        "%20"@
    } else if c == ':' {
        "%3A"@
    } else if c == '=' {
        "%3D"@
    } else {
        seq![c]
    }
}

/// `s` with each character encoded for a query string.
pub open spec fn encoded(s: Seq<char>) -> Seq<char>
    decreases s.len(),
{
    if s.len() == 0 {
        Seq::empty()
    } else {
        encoded(s.drop_last()) + encoded_char(s.last())
    }
}

/// Encodes a search query for use in a path.
pub fn urlencoding(s: &str) -> (r: String)
    ensures
        r@ == encoded(s@),
{
    let mut out = String::new();
    for c in it: s.chars()
        invariant
            it.seq() == s@,
            out@ == encoded(s@.take(it.index() as int)),
    {
        let ghost seen = s@.take(it.index() as int);
        let ghost next = s@.take(it.index() + 1);
        assert(next.drop_last() =~= seen);
        if c == ' ' {
            out.append("%20");
        } else if c == ':' {
            out.append("%3A");
        } else if c == '=' {
            out.append("%3D");
        } else {
            out.push(c);
        }
    }
    assert(s@.take(s@.len() as int) =~= s@);
    out
}

/// The tickets of `project` that match `query`; the response is a
/// `Tickets`.
pub fn search_tickets(project: &str, query: &str) -> (r: Operation<Tickets>)
    ensures
        r.request.method == Method::Get,
        r.request.path@ == "/"@ + project@ + "/tickets?query="@ + encoded(query@),
        r.request.body is None,
{
    let mut path = String::from_str("/");
    path.append(project);
    path.append("/tickets?query=");
    let q = urlencoding(query);
    path.append(q.as_str());
    let request = Request::bare(Method::Get, path);
    Operation::new(request)
}

/// The body that creates a ticket: summary and type always, the other
/// fields where supplied, the description in a CDATA section.
pub open spec fn ticket_body(
    summary: Seq<char>,
    ticket_type: Seq<char>,
    priority_id: Option<i64>,
    status_id: Option<i64>,
    description: Option<Seq<char>>,
    assignee_id: Option<i64>,
    category_id: Option<i64>,
    milestone_id: Option<i64>,
    tags: Option<Seq<char>>,
) -> Seq<char> {
    element_text(
        "ticket"@,
        element_text("summary"@, summary) + element_text("ticket-type"@, ticket_type)
            + int_field_text("priority-id"@, priority_id) + int_field_text("status-id"@, status_id)
            + cdata_field_text("description"@, description) + int_field_text(
            "assignee-id"@,
            assignee_id,
        ) + int_field_text("category-id"@, category_id) + int_field_text(
            "milestone-id"@,
            milestone_id,
        ) + field_text("tags"@, tags),
    )
}

/// The fields of a ticket body, each with its value as written, in the
/// order in which they are sent.
pub open spec fn ticket_fields(
    summary: Seq<char>,
    ticket_type: Seq<char>,
    priority_id: Option<i64>,
    status_id: Option<i64>,
    description: Option<Seq<char>>,
    assignee_id: Option<i64>,
    category_id: Option<i64>,
    milestone_id: Option<i64>,
    tags: Option<Seq<char>>,
) -> Seq<(Seq<char>, Option<Seq<char>>)> {
    seq![
        ("summary"@, Some(summary)),
        ("ticket-type"@, Some(ticket_type)),
        ("priority-id"@, written(priority_id)),
        ("status-id"@, written(status_id)),
        ("description"@, enclosed(description)),
        ("assignee-id"@, written(assignee_id)),
        ("category-id"@, written(category_id)),
        ("milestone-id"@, written(milestone_id)),
        ("tags"@, tags),
    ]
}

/// The body that creates a ticket holds the elements of the fields
/// supplied, in order, and no others: a field left out has no element, not
/// even an empty one.
pub proof fn law_ticket_body_holds_supplied_fields_only(
    summary: Seq<char>,
    ticket_type: Seq<char>,
    priority_id: Option<i64>,
    status_id: Option<i64>,
    description: Option<Seq<char>>,
    assignee_id: Option<i64>,
    category_id: Option<i64>,
    milestone_id: Option<i64>,
    tags: Option<Seq<char>>,
)
    ensures
        ticket_body(
            summary,
            ticket_type,
            priority_id,
            status_id,
            description,
            assignee_id,
            category_id,
            milestone_id,
            tags,
        ) == element_text(
            "ticket"@,
            fields_text(
                supplied(
                    ticket_fields(
                        summary,
                        ticket_type,
                        priority_id,
                        status_id,
                        description,
                        assignee_id,
                        category_id,
                        milestone_id,
                        tags,
                    ),
                ),
            ),
        ),
{
    let fields = ticket_fields(
        summary,
        ticket_type,
        priority_id,
        status_id,
        description,
        assignee_id,
        category_id,
        milestone_id,
        tags,
    );
    law_body_holds_supplied_fields_only(fields);
    let f8 = fields.drop_last();
    let f7 = f8.drop_last();
    let f6 = f7.drop_last();
    let f5 = f6.drop_last();
    let f4 = f5.drop_last();
    let f3 = f4.drop_last();
    let f2 = f3.drop_last();
    let f1 = f2.drop_last();
    let f0 = f1.drop_last();
    assert(fields_text(f0) =~= Seq::<char>::empty());
    assert(fields_text(f2) == fields_text(f1) + field_text("ticket-type"@, Some(ticket_type)));
    assert(fields_text(f4) == fields_text(f3) + field_text("status-id"@, written(status_id)));
    assert(fields_text(f6) == fields_text(f5) + field_text("assignee-id"@, written(assignee_id)));
    assert(fields_text(f8) == fields_text(f7) + field_text("milestone-id"@, written(milestone_id)));
}

/// Creates a ticket in `project`; the response is the `Ticket`.
pub fn create_ticket(
    project: &str,
    summary: &str,
    ticket_type: &str,
    priority_id: Option<i64>,
    status_id: Option<i64>,
    description: Option<&str>,
    assignee_id: Option<i64>,
    category_id: Option<i64>,
    milestone_id: Option<i64>,
    tags: Option<&str>,
) -> (r: Operation<Ticket>)
    ensures
        r.request.method == Method::Post,
        r.request.path@ == "/"@ + project@ + "/tickets"@,
        opt_text(r.request.body) == Some(
            ticket_body(
                summary@,
                ticket_type@,
                priority_id,
                status_id,
                opt_str(description),
                assignee_id,
                category_id,
                milestone_id,
                opt_str(tags),
            ),
        ),
{
    let mut body = XmlBody::new("ticket");
    body.element("summary", summary);
    body.element("ticket-type", ticket_type);
    body.integer("priority-id", priority_id);
    body.integer("status-id", status_id);
    body.cdata("description", description);
    body.integer("assignee-id", assignee_id);
    body.integer("category-id", category_id);
    body.integer("milestone-id", milestone_id);
    body.text("tags", tags);
    let mut path = String::from_str("/");
    path.append(project);
    path.append("/tickets");
    let request = Request::with_body(Method::Post, path, body.finish());
    Operation::new(request)
}

/// The path of what belongs to ticket `ticket_id` of `project` under
/// `tail`.
pub open spec fn ticket_path(project: Seq<char>, ticket_id: i64, tail: Seq<char>) -> Seq<char> {
    "/"@ + project + "/tickets/"@ + decimal(ticket_id as int) + tail
}

fn path_of_ticket(project: &str, ticket_id: i64, tail: &str) -> (path: String)
    ensures
        path@ == ticket_path(project@, ticket_id, tail@),
{
    let mut path = String::from_str("/");
    path.append(project);
    path.append("/tickets/");
    push_decimal(&mut path, ticket_id);
    path.append(tail);
    path
}

/// The notes of a ticket; the response is a `TicketNotes`.
pub fn list_ticket_notes(project: &str, ticket_id: i64) -> (r: Operation<TicketNotes>)
    ensures
        r.request.method == Method::Get,
        r.request.path@ == ticket_path(project@, ticket_id, "/notes"@),
        r.request.body is None,
{
    let request = Request::bare(Method::Get, path_of_ticket(project, ticket_id, "/notes"));
    Operation::new(request)
}

/// The element that lists what a note changes: one child for each change
/// asked for.
pub open spec fn changes_text(changes: NoteChanges) -> Seq<char> {
    element_text(
        "changes"@,
        int_field_text("status-id"@, changes.status_id) + int_field_text(
            "priority-id"@,
            changes.priority_id,
        ) + int_field_text("category-id"@, changes.category_id) + int_field_text(
            "assignee-id"@,
            changes.assignee_id,
        ) + int_field_text("milestone-id"@, changes.milestone_id) + field_text(
            "subject"@,
            opt_text(changes.subject),
        ),
    )
}

/// The body that adds a note: the content in a CDATA section where
/// supplied, `<private>1</private>` for a private note, and the changes
/// where there are any.
pub open spec fn note_body(content: Option<Seq<char>>, changes: Option<NoteChanges>, private: bool) -> Seq<
    char,
> {
    element_text(
        "ticket-note"@,
        cdata_field_text("content"@, content) + (if private {
            element_text("private"@, "1"@)
        } else {
            Seq::empty()
        }) + (match changes {
            Some(ch) => changes_text(ch),
            None => Seq::empty(),
        }),
    )
}

/// Adds a note to a ticket, and with it changes to the ticket; the
/// response is the `TicketNote`.
pub fn create_ticket_note(
    project: &str,
    ticket_id: i64,
    content: Option<&str>,
    changes: Option<&NoteChanges>,
    private: bool,
) -> (r: Operation<TicketNote>)
    ensures
        r.request.method == Method::Post,
        r.request.path@ == ticket_path(project@, ticket_id, "/notes"@),
        opt_text(r.request.body) == Some(
            note_body(
                opt_str(content),
                match changes {
                    Some(ch) => Some(*ch),
                    None => None,
                },
                private,
            ),
        ),
{
    let mut body = XmlBody::new("ticket-note");
    body.cdata("content", content);
    if private {
        body.element("private", "1");
    }
    match changes {
        Some(ch) => {
            let mut inner = XmlBody::new("changes");
            inner.integer("status-id", ch.status_id);
            inner.integer("priority-id", ch.priority_id);
            inner.integer("category-id", ch.category_id);
            inner.integer("assignee-id", ch.assignee_id);
            inner.integer("milestone-id", ch.milestone_id);
            match &ch.subject {
                Some(s) => {
                    inner.text("subject", Some(s.as_str()));
                },
                None => {
                    inner.text("subject", None);
                },
            }
            let written = inner.finish();
            body.raw(written.as_str());
        },
        None => {},
    }
    let request = Request::with_body(Method::Post, path_of_ticket(project, ticket_id, "/notes"), body.finish());
    Operation::new(request)
}

/// The watchers of a ticket; the response is a `Watchers`.
pub fn list_watchers(project: &str, ticket_id: i64) -> (r: Operation<Watchers>)
    ensures
        r.request.method == Method::Get,
        r.request.path@ == ticket_path(project@, ticket_id, "/watchers"@),
        r.request.body is None,
{
    let request = Request::bare(Method::Get, path_of_ticket(project, ticket_id, "/watchers"));
    Operation::new(request)
}

/// One element `name` for each of `ids`, in order, each around the
/// number.
pub open spec fn id_elements(name: Seq<char>, ids: Seq<i64>) -> Seq<char>
    decreases ids.len(),
{
    if ids.len() == 0 {
        Seq::empty()
    } else {
        id_elements(name, ids.drop_last()) + element_text(name, decimal(ids.last() as int))
    }
}

/// Sets the watchers of a ticket to the users `user_ids`, replacing those
/// it had.
pub fn set_watchers(project: &str, ticket_id: i64, user_ids: &Vec<i64>) -> (r: Operation<Ignored>)
    ensures
        r.request.method == Method::Post,
        r.request.path@ == ticket_path(project@, ticket_id, "/watchers"@),
        opt_text(r.request.body) == Some(element_text("watchers"@, id_elements("watcher"@, user_ids@))),
{
    let mut body = XmlBody::new("watchers");
    let mut i: usize = 0;
    while i < user_ids.len()
        invariant
            i <= user_ids.len(),
            body.root@ == "watchers"@,
            body.content@ == id_elements("watcher"@, user_ids@.take(i as int)),
        decreases user_ids.len() - i,
    {
        assert(user_ids@.take(i + 1).drop_last() =~= user_ids@.take(i as int));
        body.integer("watcher", Some(user_ids[i]));
        i += 1;
    }
    assert(user_ids@.take(user_ids@.len() as int) =~= user_ids@);
    let request = Request::with_body(Method::Post, path_of_ticket(project, ticket_id, "/watchers"), body.finish());
    Operation::new(request)
}

fn settings_request(project: &str, tail: &str) -> (r: Request)
    ensures
        r.method == Method::Get,
        r.path@ == "/"@ + project@ + tail@,
        r.body is None,
{
    let mut path = String::from_str("/");
    path.append(project);
    path.append(tail);
    Request::bare(Method::Get, path)
}

/// The ticket statuses of `project`; the response is a `TicketStatuses`.
pub fn list_statuses(project: &str) -> (r: Operation<TicketStatuses>)
    ensures
        r.request.method == Method::Get,
        r.request.path@ == "/"@ + project@ + "/tickets/statuses"@,
        r.request.body is None,
{
    let request = settings_request(project, "/tickets/statuses");
    Operation::new(request)
}

/// The ticket priorities of `project`; the response is a
/// `TicketPriorities`.
pub fn list_priorities(project: &str) -> (r: Operation<TicketPriorities>)
    ensures
        r.request.method == Method::Get,
        r.request.path@ == "/"@ + project@ + "/tickets/priorities"@,
        r.request.body is None,
{
    let request = settings_request(project, "/tickets/priorities");
    Operation::new(request)
}

/// The ticket categories of `project`; the response is a
/// `TicketCategories`.
pub fn list_categories(project: &str) -> (r: Operation<TicketCategories>)
    ensures
        r.request.method == Method::Get,
        r.request.path@ == "/"@ + project@ + "/tickets/categories"@,
        r.request.body is None,
{
    let request = settings_request(project, "/tickets/categories");
    Operation::new(request)
}

/// The ticket types of `project`; the response is a `TicketTypes`.
pub fn list_types(project: &str) -> (r: Operation<TicketTypes>)
    ensures
        r.request.method == Method::Get,
        r.request.path@ == "/"@ + project@ + "/tickets/types"@,
        r.request.body is None,
{
    let request = settings_request(project, "/tickets/types");
    Operation::new(request)
}

} // verus!
