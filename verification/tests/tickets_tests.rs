use codebase_cli::api::client::{classify, Method, Request, RetryPolicy, Verdict};
use codebase_cli::api::models::{
    NoteChanges, Ticket, TicketCategories, TicketNote, TicketNotes, TicketPriorities,
    TicketStatuses, TicketTypes, Tickets, Watchers,
};
use codebase_cli::api::operation::{Answer, Operation};
use codebase_cli::api::tickets::{
    create_ticket, create_ticket_note, list_categories, list_priorities, list_statuses,
    list_ticket_notes, list_tickets, list_types, list_watchers, search_tickets, set_watchers,
};

/// What the service is set up to answer, and what it expects to be asked.
struct Exchange<'a> {
    method: &'a str,
    path: &'a str,
    expected_body: Option<&'a str>,
    status: u16,
    body: &'a str,
}

fn method_name(method: Method) -> &'static str {
    match method {
        Method::Get => "GET",
        Method::Post => "POST",
        Method::Put => "PUT",
        Method::Delete => "DELETE",
    }
}

/// Checks that `request` is the one expected and hands back the answer,
/// classified as the transport classifies it.
fn send(request: &Request, exchange: &Exchange) -> Result<String, String> {
    assert_eq!(method_name(request.method), exchange.method);
    assert_eq!(request.path, exchange.path);
    if let Some(expected) = exchange.expected_body {
        assert_eq!(request.body.as_deref(), Some(expected));
    }
    assert_eq!(RetryPolicy::standard().judge(0, exchange.status), Verdict::Deliver);
    classify(exchange.status, exchange.body.to_string()).map_err(|e| e.message())
}

/// Performs `operation` against the service as set up.
fn answer<T: Answer>(operation: Operation<T>, exchange: &Exchange) -> Result<T, String> {
    let body = send(&operation.request, exchange)?;
    operation.read(&body).map_err(|e| e.message())
}

#[test]
fn test_list_tickets() {
    let exchange = Exchange {
        method: "GET",
        path: "/test-project/tickets",
        expected_body: None,
        status: 200,
        body: r#"<tickets>
                <ticket>
                    <ticket-id>123</ticket-id>
                    <summary>Test ticket</summary>
                    <ticket-type>bug</ticket-type>
                    <priority-id>2</priority-id>
                    <status-id>1</status-id>
                    <assignee>John Doe</assignee>
                </ticket>
                <ticket>
                    <ticket-id>124</ticket-id>
                    <summary>Another ticket</summary>
                    <ticket-type>feature</ticket-type>
                    <priority-id>3</priority-id>
                    <status-id>2</status-id>
                </ticket>
            </tickets>"#,
    };

    let result = answer::<Tickets>(list_tickets("test-project"), &exchange).map(|all| all.tickets);
    assert!(result.is_ok());
    let tickets = result.unwrap();
    assert_eq!(tickets.len(), 2);
    assert_eq!(tickets[0].ticket_id, Some(123));
    assert_eq!(tickets[0].summary, Some("Test ticket".to_string()));
    assert_eq!(tickets[0].ticket_type, Some("bug".to_string()));
    assert_eq!(tickets[1].ticket_id, Some(124));
}

#[test]
fn test_search_tickets() {
    let exchange = Exchange {
        method: "GET",
        path: "/test-project/tickets?query=status%3Aopen",
        expected_body: None,
        status: 200,
        body: r#"<tickets>
                <ticket>
                    <ticket-id>456</ticket-id>
                    <summary>Search result ticket</summary>
                    <ticket-type>task</ticket-type>
                    <description>Test description</description>
                </ticket>
            </tickets>"#,
    };

    let result = answer::<Tickets>(
        search_tickets("test-project", "status:open"),
        &exchange,
    ).map(|all| all.tickets);
    assert!(result.is_ok());
    let tickets = result.unwrap();
    assert_eq!(tickets.len(), 1);
    assert_eq!(tickets[0].ticket_id, Some(456));
    assert_eq!(tickets[0].summary, Some("Search result ticket".to_string()));
}

#[test]
fn test_create_ticket() {
    let exchange = Exchange {
        method: "POST",
        path: "/test-project/tickets",
        expected_body: None,
        status: 201,
        body: r#"<ticket>
                <ticket-id>789</ticket-id>
                <summary>Newly created ticket</summary>
                <ticket-type>bug</ticket-type>
                <priority-id>1</priority-id>
                <status-id>1</status-id>
                <description>This is a new ticket</description>
                <assignee-id>42</assignee-id>
            </ticket>"#,
    };

    let result = answer::<Ticket>(create_ticket("test-project",
        "Newly created ticket",
        "bug",
        Some(1),
        Some(1),
        Some("This is a new ticket"),
        Some(42),
        None,
        None,
        None), &exchange);

    assert!(result.is_ok());
    let ticket = result.unwrap();
    assert_eq!(ticket.ticket_id, Some(789));
    assert_eq!(ticket.summary, Some("Newly created ticket".to_string()));
    assert_eq!(ticket.ticket_type, Some("bug".to_string()));
    assert_eq!(ticket.priority_id, Some(1));
    assert_eq!(ticket.assignee_id, Some(42));
}

#[test]
fn test_list_ticket_notes() {
    let exchange = Exchange {
        method: "GET",
        path: "/test-project/tickets/123/notes",
        expected_body: None,
        status: 200,
        body: r#"<ticket-notes>
                <ticket-note>
                    <id>1</id>
                    <content>First note</content>
                    <time-added>2024-01-15T10:00:00Z</time-added>
                    <private>0</private>
                </ticket-note>
                <ticket-note>
                    <id>2</id>
                    <content>Second note</content>
                    <time-added>2024-01-16T11:00:00Z</time-added>
                    <private>1</private>
                </ticket-note>
            </ticket-notes>"#,
    };

    let result = answer::<TicketNotes>(
        list_ticket_notes("test-project", 123),
        &exchange,
    ).map(|all| all.notes);
    assert!(result.is_ok());
    let notes = result.unwrap();
    assert_eq!(notes.len(), 2);
    assert_eq!(notes[0].id, Some(1));
    assert_eq!(notes[0].content, Some("First note".to_string()));
    assert_eq!(notes[0].private, Some(false));
    assert_eq!(notes[1].id, Some(2));
    assert_eq!(notes[1].private, Some(true));
}

#[test]
fn test_create_ticket_note() {
    let exchange = Exchange {
        method: "POST",
        path: "/test-project/tickets/123/notes",
        expected_body: None,
        status: 201,
        body: r#"<ticket-note>
                <id>3</id>
                <content>New note content</content>
                <time-added>2024-01-17T12:00:00Z</time-added>
                <private>1</private>
                <changes>
                    <status-id>2</status-id>
                    <priority-id>3</priority-id>
                </changes>
            </ticket-note>"#,
    };

    let changes = NoteChanges {
        status_id: Some(2),
        priority_id: Some(3),
        category_id: None,
        assignee_id: None,
        milestone_id: None,
        subject: None,
    };

    let result = answer::<TicketNote>(create_ticket_note("test-project",
        123,
        Some("New note content"),
        Some(&changes),
        true), &exchange);

    assert!(result.is_ok());
    let note = result.unwrap();
    assert_eq!(note.id, Some(3));
    assert_eq!(note.content, Some("New note content".to_string()));
    assert_eq!(note.private, Some(true));
    assert!(note.changes.is_some());
    let note_changes = note.changes.unwrap();
    assert_eq!(note_changes.status_id, Some(2));
    assert_eq!(note_changes.priority_id, Some(3));
}

#[test]
fn test_list_watchers() {
    let exchange = Exchange {
        method: "GET",
        path: "/test-project/tickets/123/watchers",
        expected_body: None,
        status: 200,
        body: r#"<watchers>
                <watcher><watcher>42</watcher></watcher>
                <watcher><watcher>43</watcher></watcher>
                <watcher><watcher>44</watcher></watcher>
            </watchers>"#,
    };

    let result = answer::<Watchers>(
        list_watchers("test-project", 123),
        &exchange,
    ).map(|all| all.watchers);
    assert!(result.is_ok());
    let watchers = result.unwrap();
    assert_eq!(watchers.len(), 3);
    assert_eq!(watchers[0].watcher, Some(42));
    assert_eq!(watchers[1].watcher, Some(43));
    assert_eq!(watchers[2].watcher, Some(44));
}

#[test]
fn test_set_watchers() {
    let exchange = Exchange {
        method: "POST",
        path: "/test-project/tickets/123/watchers",
        expected_body: None,
        status: 200,
        body: "",
    };

    let user_ids = vec![42, 43, 44];
    let result = answer(set_watchers("test-project", 123, &user_ids), &exchange).map(|_| ());
    assert!(result.is_ok());
}

#[test]
fn test_list_statuses() {
    let exchange = Exchange {
        method: "GET",
        path: "/test-project/tickets/statuses",
        expected_body: None,
        status: 200,
        body: r#"<ticketing-statuses>
                <ticketing-status>
                    <id>1</id>
                    <name>Open</name>
                    <background-colour>#FF0000</background-colour>
                    <order>1</order>
                    <treat-as-closed>0</treat-as-closed>
                </ticketing-status>
                <ticketing-status>
                    <id>2</id>
                    <name>Closed</name>
                    <background-colour>#00FF00</background-colour>
                    <order>2</order>
                    <treat-as-closed>1</treat-as-closed>
                </ticketing-status>
            </ticketing-statuses>"#,
    };

    let result = answer::<TicketStatuses>(
        list_statuses("test-project"),
        &exchange,
    ).map(|all| all.statuses);
    assert!(result.is_ok());
    let statuses = result.unwrap();
    assert_eq!(statuses.len(), 2);
    assert_eq!(statuses[0].id, Some(1));
    assert_eq!(statuses[0].name, Some("Open".to_string()));
    assert_eq!(statuses[0].treat_as_closed, Some(false));
    assert_eq!(statuses[1].id, Some(2));
    assert_eq!(statuses[1].name, Some("Closed".to_string()));
    assert_eq!(statuses[1].treat_as_closed, Some(true));
}

#[test]
fn test_list_priorities() {
    let exchange = Exchange {
        method: "GET",
        path: "/test-project/tickets/priorities",
        expected_body: None,
        status: 200,
        body: r#"<ticketing-priorities>
                <ticketing-priority>
                    <id>1</id>
                    <name>High</name>
                    <colour>#FF0000</colour>
                    <default>0</default>
                    <position>1</position>
                </ticketing-priority>
                <ticketing-priority>
                    <id>2</id>
                    <name>Medium</name>
                    <colour>#FFFF00</colour>
                    <default>1</default>
                    <position>2</position>
                </ticketing-priority>
                <ticketing-priority>
                    <id>3</id>
                    <name>Low</name>
                    <colour>#00FF00</colour>
                    <default>0</default>
                    <position>3</position>
                </ticketing-priority>
            </ticketing-priorities>"#,
    };

    let result = answer::<TicketPriorities>(
        list_priorities("test-project"),
        &exchange,
    ).map(|all| all.priorities);
    assert!(result.is_ok());
    let priorities = result.unwrap();
    assert_eq!(priorities.len(), 3);
    assert_eq!(priorities[0].id, Some(1));
    assert_eq!(priorities[0].name, Some("High".to_string()));
    assert_eq!(priorities[0].colour, Some("#FF0000".to_string()));
    assert_eq!(priorities[0].default, Some(false));
    assert_eq!(priorities[1].id, Some(2));
    assert_eq!(priorities[1].default, Some(true));
}

#[test]
fn test_list_categories() {
    let exchange = Exchange {
        method: "GET",
        path: "/test-project/tickets/categories",
        expected_body: None,
        status: 200,
        body: r#"<ticketing-categories>
                <ticketing-category>
                    <id>1</id>
                    <name>Backend</name>
                </ticketing-category>
                <ticketing-category>
                    <id>2</id>
                    <name>Frontend</name>
                </ticketing-category>
                <ticketing-category>
                    <id>3</id>
                    <name>Infrastructure</name>
                </ticketing-category>
            </ticketing-categories>"#,
    };

    let result = answer::<TicketCategories>(
        list_categories("test-project"),
        &exchange,
    ).map(|all| all.categories);
    assert!(result.is_ok());
    let categories = result.unwrap();
    assert_eq!(categories.len(), 3);
    assert_eq!(categories[0].id, Some(1));
    assert_eq!(categories[0].name, Some("Backend".to_string()));
    assert_eq!(categories[1].id, Some(2));
    assert_eq!(categories[1].name, Some("Frontend".to_string()));
    assert_eq!(categories[2].id, Some(3));
    assert_eq!(categories[2].name, Some("Infrastructure".to_string()));
}

#[test]
fn test_list_types() {
    let exchange = Exchange {
        method: "GET",
        path: "/test-project/tickets/types",
        expected_body: None,
        status: 200,
        body: r#"<ticketing-types>
                <ticketing-type>
                    <id>1</id>
                    <name>Bug</name>
                    <icon>bug-icon</icon>
                </ticketing-type>
                <ticketing-type>
                    <id>2</id>
                    <name>Feature</name>
                    <icon>feature-icon</icon>
                </ticketing-type>
                <ticketing-type>
                    <id>3</id>
                    <name>Task</name>
                    <icon>task-icon</icon>
                </ticketing-type>
            </ticketing-types>"#,
    };

    let result = answer::<TicketTypes>(list_types("test-project"), &exchange).map(|all| all.types);
    assert!(result.is_ok());
    let types = result.unwrap();
    assert_eq!(types.len(), 3);
    assert_eq!(types[0].id, Some(1));
    assert_eq!(types[0].name, Some("Bug".to_string()));
    assert_eq!(types[0].icon, Some("bug-icon".to_string()));
    assert_eq!(types[1].id, Some(2));
    assert_eq!(types[1].name, Some("Feature".to_string()));
    assert_eq!(types[2].id, Some(3));
    assert_eq!(types[2].name, Some("Task".to_string()));
}

#[test]
fn test_api_error() {
    let exchange = Exchange {
        method: "GET",
        path: "/test-project/tickets",
        expected_body: None,
        status: 404,
        body: r#"<error>Project not found</error>"#,
    };

    let result = answer::<Tickets>(list_tickets("test-project"), &exchange).map(|all| all.tickets);
    assert!(result.is_err());
    let error = result.unwrap_err();
    assert!(error.to_string().contains("404"));
}
