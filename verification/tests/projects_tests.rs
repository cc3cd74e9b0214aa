use codebase_cli::api::client::{classify, Method, Request, RetryPolicy, Verdict};
use codebase_cli::api::models::{Project, ProjectGroups, ProjectUsers, Projects};
use codebase_cli::api::operation::{Answer, Operation};
use codebase_cli::api::projects::{
    assign_project_users, create_project, delete_project, list_project_groups,
    list_project_users, list_projects, show_project, update_project,
};

/// What the service is set up to answer, and what it expects to be asked.
struct Exchange<'a> {
    method: &'a str,
    path: &'a str,
    expected_body: Option<&'a str>,
    status: u16,
    body: &'a str,
}

fn method_name(method: Method) -> &'static str {
    match method {
        Method::Get => "GET",
        Method::Post => "POST",
        Method::Put => "PUT",
        Method::Delete => "DELETE",
    }
}

/// Checks that `request` is the one expected and hands back the answer,
/// classified as the transport classifies it.
fn send(request: &Request, exchange: &Exchange) -> Result<String, String> {
    assert_eq!(method_name(request.method), exchange.method);
    assert_eq!(request.path, exchange.path);
    if let Some(expected) = exchange.expected_body {
        assert_eq!(request.body.as_deref(), Some(expected));
    }
    assert_eq!(RetryPolicy::standard().judge(0, exchange.status), Verdict::Deliver);
    classify(exchange.status, exchange.body.to_string()).map_err(|e| e.message())
}

/// Performs `operation` against the service as set up.
fn answer<T: Answer>(operation: Operation<T>, exchange: &Exchange) -> Result<T, String> {
    let body = send(&operation.request, exchange)?;
    operation.read(&body).map_err(|e| e.message())
}

#[test]
fn test_list_projects() {
    let exchange = Exchange {
        method: "GET",
        path: "/projects",
        expected_body: None,
        status: 200,
        body: r#"<?xml version="1.0" encoding="UTF-8"?>
<projects>
  <project>
    <name>Project Alpha</name>
    <account-name>testaccount</account-name>
    <permalink>project-alpha</permalink>
    <group-id>1</group-id>
    <overview>Alpha project overview</overview>
    <start-page>overview</start-page>
    <status>active</status>
    <icon>0</icon>
    <total-tickets>100</total-tickets>
    <open-tickets>25</open-tickets>
    <closed-tickets>75</closed-tickets>
  </project>
  <project>
    <name>Project Beta</name>
    <account-name>testaccount</account-name>
    <permalink>project-beta</permalink>
    <group-id>2</group-id>
    <overview>Beta project overview</overview>
    <start-page>tickets</start-page>
    <status>archived</status>
    <icon>1</icon>
    <total-tickets>50</total-tickets>
    <open-tickets>10</open-tickets>
    <closed-tickets>40</closed-tickets>
  </project>
</projects>"#,
    };

    let projects = answer::<Projects>(list_projects(), &exchange).map(|all| all.projects).unwrap();

    assert_eq!(projects.len(), 2);
    assert_eq!(projects[0].name.as_deref(), Some("Project Alpha"));
    assert_eq!(projects[0].permalink.as_deref(), Some("project-alpha"));
    assert_eq!(projects[0].account_name.as_deref(), Some("testaccount"));
    assert_eq!(projects[0].group_id, Some(1));
    assert_eq!(projects[0].status.as_deref(), Some("active"));
    assert_eq!(projects[0].total_tickets, Some(100));
    assert_eq!(projects[0].open_tickets, Some(25));
    assert_eq!(projects[0].closed_tickets, Some(75));

    assert_eq!(projects[1].name.as_deref(), Some("Project Beta"));
    assert_eq!(projects[1].permalink.as_deref(), Some("project-beta"));
    assert_eq!(projects[1].status.as_deref(), Some("archived"));
}

#[test]
fn test_show_project() {
    let exchange = Exchange {
        method: "GET",
        path: "/my-project",
        expected_body: None,
        status: 200,
        body: r#"<?xml version="1.0" encoding="UTF-8"?>
<project>
  <name>My Project</name>
  <account-name>myaccount</account-name>
  <permalink>my-project</permalink>
  <group-id>5</group-id>
  <overview>This is my project</overview>
  <start-page>overview</start-page>
  <status>active</status>
  <icon>2</icon>
  <total-tickets>200</total-tickets>
  <open-tickets>50</open-tickets>
  <closed-tickets>150</closed-tickets>
</project>"#,
    };

    let project = answer::<Project>(show_project("my-project"), &exchange).unwrap();

    assert_eq!(project.name.as_deref(), Some("My Project"));
    assert_eq!(project.permalink.as_deref(), Some("my-project"));
    assert_eq!(project.account_name.as_deref(), Some("myaccount"));
    assert_eq!(project.group_id, Some(5));
    assert_eq!(project.overview.as_deref(), Some("This is my project"));
    assert_eq!(project.start_page.as_deref(), Some("overview"));
    assert_eq!(project.status.as_deref(), Some("active"));
    assert_eq!(project.icon, Some(2));
    assert_eq!(project.total_tickets, Some(200));
    assert_eq!(project.open_tickets, Some(50));
    assert_eq!(project.closed_tickets, Some(150));
}

#[test]
fn test_create_project() {
    let exchange = Exchange {
        method: "POST",
        path: "/create_project",
        expected_body: Some("<project><name>New Project</name></project>"),
        status: 201,
        body: r#"<?xml version="1.0" encoding="UTF-8"?>
<project>
  <name>New Project</name>
  <account-name>testaccount</account-name>
  <permalink>new-project</permalink>
  <group-id>1</group-id>
  <status>active</status>
  <icon>0</icon>
  <total-tickets>0</total-tickets>
  <open-tickets>0</open-tickets>
  <closed-tickets>0</closed-tickets>
</project>"#,
    };

    let project = answer::<Project>(create_project("New Project"), &exchange).unwrap();

    assert_eq!(project.name.as_deref(), Some("New Project"));
    assert_eq!(project.permalink.as_deref(), Some("new-project"));
    assert_eq!(project.account_name.as_deref(), Some("testaccount"));
    assert_eq!(project.status.as_deref(), Some("active"));
    assert_eq!(project.total_tickets, Some(0));
}

#[test]
fn test_update_project_name() {
    let exchange = Exchange {
        method: "PUT",
        path: "/project/123",
        expected_body: Some("<project><name>Updated Name</name></project>"),
        status: 200,
        body: r#"<?xml version="1.0" encoding="UTF-8"?>
<project>
  <name>Updated Name</name>
  <account-name>testaccount</account-name>
  <permalink>my-project</permalink>
  <group-id>1</group-id>
  <status>active</status>
  <icon>0</icon>
  <total-tickets>10</total-tickets>
  <open-tickets>5</open-tickets>
  <closed-tickets>5</closed-tickets>
</project>"#,
    };

    let project = answer::<Project>(update_project("123", Some("Updated Name"), None), &exchange)
        .unwrap();

    assert_eq!(project.name.as_deref(), Some("Updated Name"));
    assert_eq!(project.status.as_deref(), Some("active"));
}

#[test]
fn test_update_project_status() {
    let exchange = Exchange {
        method: "PUT",
        path: "/project/456",
        expected_body: Some("<project><status>archived</status></project>"),
        status: 200,
        body: r#"<?xml version="1.0" encoding="UTF-8"?>
<project>
  <name>Test Project</name>
  <account-name>testaccount</account-name>
  <permalink>test-project</permalink>
  <group-id>1</group-id>
  <status>archived</status>
  <icon>0</icon>
  <total-tickets>10</total-tickets>
  <open-tickets>0</open-tickets>
  <closed-tickets>10</closed-tickets>
</project>"#,
    };

    let project = answer::<Project>(update_project("456", None, Some("archived")), &exchange)
        .unwrap();

    assert_eq!(project.name.as_deref(), Some("Test Project"));
    assert_eq!(project.status.as_deref(), Some("archived"));
}

#[test]
fn test_update_project_name_and_status() {
    let exchange = Exchange {
        method: "PUT",
        path: "/project/789",
        expected_body: Some("<project><name>Both Updated</name><status>archived</status></project>"),
        status: 200,
        body: r#"<?xml version="1.0" encoding="UTF-8"?>
<project>
  <name>Both Updated</name>
  <account-name>testaccount</account-name>
  <permalink>both-updated</permalink>
  <group-id>2</group-id>
  <status>archived</status>
  <icon>1</icon>
  <total-tickets>25</total-tickets>
  <open-tickets>0</open-tickets>
  <closed-tickets>25</closed-tickets>
</project>"#,
    };

    let project = answer::<Project>(update_project("789", Some("Both Updated"), Some("archived")), &exchange)
        .unwrap();

    assert_eq!(project.name.as_deref(), Some("Both Updated"));
    assert_eq!(project.status.as_deref(), Some("archived"));
}

#[test]
fn test_delete_project() {
    let exchange = Exchange {
        method: "DELETE",
        path: "/project-to-delete",
        expected_body: None,
        status: 200,
        body: "",
    };

    let result = answer(delete_project("project-to-delete"), &exchange).map(|_| ());

    assert!(result.is_ok());
}

#[test]
fn test_list_project_groups() {
    let exchange = Exchange {
        method: "GET",
        path: "/project_groups",
        expected_body: None,
        status: 200,
        body: r#"<?xml version="1.0" encoding="UTF-8"?>
<project-groups>
  <project-group>
    <id>1</id>
    <label>Development</label>
  </project-group>
  <project-group>
    <id>2</id>
    <label>Production</label>
  </project-group>
  <project-group>
    <id>3</id>
    <label>Internal</label>
  </project-group>
</project-groups>"#,
    };

    let groups = answer::<ProjectGroups>(list_project_groups(), &exchange).map(|all| all.groups).unwrap();

    assert_eq!(groups.len(), 3);
    assert_eq!(groups[0].id, Some(1));
    assert_eq!(groups[0].label.as_deref(), Some("Development"));
    assert_eq!(groups[1].id, Some(2));
    assert_eq!(groups[1].label.as_deref(), Some("Production"));
    assert_eq!(groups[2].id, Some(3));
    assert_eq!(groups[2].label.as_deref(), Some("Internal"));
}

#[test]
fn test_list_project_users() {
    let exchange = Exchange {
        method: "GET",
        path: "/my-project/assignments",
        expected_body: None,
        status: 200,
        body: r#"<?xml version="1.0" encoding="UTF-8"?>
<users>
  <user>
    <id>101</id>
    <first-name>John</first-name>
    <last-name>Doe</last-name>
    <username>johndoe</username>
    <email-address>john.doe@example.com</email-address>
    <company>Acme Corp</company>
  </user>
  <user>
    <id>102</id>
    <first-name>Jane</first-name>
    <last-name>Smith</last-name>
    <username>janesmith</username>
    <email-address>jane.smith@example.com</email-address>
    <company>Tech Inc</company>
  </user>
</users>"#,
    };

    let users = answer::<ProjectUsers>(list_project_users("my-project"), &exchange).map(|all| all.users).unwrap();

    assert_eq!(users.len(), 2);
    assert_eq!(users[0].id, Some(101));
    assert_eq!(users[0].first_name.as_deref(), Some("John"));
    assert_eq!(users[0].last_name.as_deref(), Some("Doe"));
    assert_eq!(users[0].username.as_deref(), Some("johndoe"));
    assert_eq!(
        users[0].email_address.as_deref(),
        Some("john.doe@example.com")
    );
    assert_eq!(users[0].company.as_deref(), Some("Acme Corp"));

    assert_eq!(users[1].id, Some(102));
    assert_eq!(users[1].first_name.as_deref(), Some("Jane"));
    assert_eq!(users[1].last_name.as_deref(), Some("Smith"));
    assert_eq!(users[1].username.as_deref(), Some("janesmith"));
    assert_eq!(
        users[1].email_address.as_deref(),
        Some("jane.smith@example.com")
    );
    assert_eq!(users[1].company.as_deref(), Some("Tech Inc"));
}

#[test]
fn test_assign_project_users() {
    let exchange = Exchange {
        method: "POST",
        path: "/my-project/assignments",
        expected_body: Some("<users><user><id>201</id></user><user><id>202</id></user><user><id>203</id></user></users>"),
        status: 200,
        body: "",
    };

    let user_ids = vec![201, 202, 203];
    let result = answer(assign_project_users("my-project", &user_ids), &exchange).map(|_| ());

    assert!(result.is_ok());
}

#[test]
fn test_assign_project_users_single_user() {
    let exchange = Exchange {
        method: "POST",
        path: "/test-project/assignments",
        expected_body: Some("<users><user><id>999</id></user></users>"),
        status: 200,
        body: "",
    };

    let user_ids = vec![999];
    let result = answer(assign_project_users("test-project", &user_ids), &exchange).map(|_| ());

    assert!(result.is_ok());
}

#[test]
fn test_list_projects_error_handling() {
    let exchange = Exchange {
        method: "GET",
        path: "/projects",
        expected_body: None,
        status: 401,
        body: "Unauthorized: Invalid API credentials",
    };

    let result = answer::<Projects>(list_projects(), &exchange).map(|all| all.projects);

    assert!(result.is_err());
    let error_msg = result.unwrap_err().to_string();
    assert!(error_msg.contains("401") || error_msg.contains("API error"));
}

#[test]
fn test_show_project_not_found() {
    let exchange = Exchange {
        method: "GET",
        path: "/nonexistent-project",
        expected_body: None,
        status: 404,
        body: "Project not found",
    };

    let result = answer::<Project>(show_project("nonexistent-project"), &exchange);

    assert!(result.is_err());
    let error_msg = result.unwrap_err().to_string();
    assert!(error_msg.contains("404") || error_msg.contains("API error"));
}

#[test]
fn test_delete_project_forbidden() {
    let exchange = Exchange {
        method: "DELETE",
        path: "/protected-project",
        expected_body: None,
        status: 403,
        body: "Forbidden: You do not have permission to delete this project",
    };

    let result = answer(delete_project("protected-project"), &exchange).map(|_| ());

    assert!(result.is_err());
    let error_msg = result.unwrap_err().to_string();
    assert!(error_msg.contains("403") || error_msg.contains("API error"));
}
