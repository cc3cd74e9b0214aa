use codebase_cli::api::client::{classify, Method, Request, RetryPolicy, Verdict};
use codebase_cli::api::models::{MergeRequest, MergeRequests};
use codebase_cli::api::operation::{Answer, Operation};
use codebase_cli::api::repositories::{
    close_merge_request, comment_merge_request, create_merge_request, list_merge_requests,
    merge_merge_request, reassign_merge_request, reopen_merge_request, show_merge_request,
};

/// What the service is set up to answer, and what it expects to be asked.
struct Exchange<'a> {
    method: &'a str,
    path: &'a str,
    expected_body: Option<&'a str>,
    status: u16,
    body: &'a str,
}

fn method_name(method: Method) -> &'static str {
    match method {
        Method::Get => "GET",
        Method::Post => "POST",
        Method::Put => "PUT",
        Method::Delete => "DELETE",
    }
}

/// Checks that `request` is the one expected and hands back the answer,
/// classified as the transport classifies it.
fn send(request: &Request, exchange: &Exchange) -> Result<String, String> {
    assert_eq!(method_name(request.method), exchange.method);
    assert_eq!(request.path, exchange.path);
    if let Some(expected) = exchange.expected_body {
        assert_eq!(request.body.as_deref(), Some(expected));
    }
    assert_eq!(RetryPolicy::standard().judge(0, exchange.status), Verdict::Deliver);
    classify(exchange.status, exchange.body.to_string()).map_err(|e| e.message())
}

/// Performs `operation` against the service as set up.
fn answer<T: Answer>(operation: Operation<T>, exchange: &Exchange) -> Result<T, String> {
    let body = send(&operation.request, exchange)?;
    operation.read(&body).map_err(|e| e.message())
}

#[test]
fn test_list_merge_requests() {
    let xml_response = r#"<?xml version="1.0" encoding="UTF-8"?>
<merge-requests>
  <merge-request>
    <id>1</id>
    <source-ref>feature/new-feature</source-ref>
    <target-ref>main</target-ref>
    <subject>Add new feature</subject>
    <status>open</status>
    <user-id>123</user-id>
    <created-at>2026-02-15T10:00:00Z</created-at>
    <updated-at>2026-02-15T12:00:00Z</updated-at>
  </merge-request>
</merge-requests>"#;

    let exchange = Exchange {
        method: "GET",
        path: "/test-project/test-repo/merge_requests",
        expected_body: None,
        status: 200,
        body: xml_response,
    };

    let result = answer::<MergeRequests>(
        list_merge_requests("test-project", "test-repo"),
        &exchange,
    ).map(|all| all.merge_requests);

    assert!(result.is_ok());
    let mrs = result.unwrap();
    assert_eq!(mrs.len(), 1);

    // Verify merge request
    assert_eq!(mrs[0].id, Some(1));
    assert_eq!(mrs[0].source_ref.as_deref(), Some("feature/new-feature"));
    assert_eq!(mrs[0].target_ref.as_deref(), Some("main"));
    assert_eq!(mrs[0].subject.as_deref(), Some("Add new feature"));
    assert_eq!(mrs[0].status.as_deref(), Some("open"));
    assert_eq!(mrs[0].user_id, Some(123));
    assert_eq!(mrs[0].created_at.as_deref(), Some("2026-02-15T10:00:00Z"));
    assert_eq!(mrs[0].updated_at.as_deref(), Some("2026-02-15T12:00:00Z"));
}

#[test]
fn test_list_merge_requests_multiple() {
    let xml_response = r#"<?xml version="1.0" encoding="UTF-8"?>
<merge-requests>
  <merge-request>
    <id>1</id>
    <source-ref>feature/feature-a</source-ref>
    <target-ref>main</target-ref>
    <subject>Add feature A</subject>
    <status>open</status>
    <user-id>123</user-id>
    <created-at>2026-02-15T10:00:00Z</created-at>
    <updated-at>2026-02-15T12:00:00Z</updated-at>
  </merge-request>
  <merge-request>
    <id>2</id>
    <source-ref>bugfix/fix-issue</source-ref>
    <target-ref>main</target-ref>
    <subject>Fix critical bug</subject>
    <status>merged</status>
    <user-id>456</user-id>
    <created-at>2026-02-14T08:00:00Z</created-at>
    <updated-at>2026-02-14T16:00:00Z</updated-at>
  </merge-request>
  <merge-request>
    <id>3</id>
    <source-ref>feature/feature-b</source-ref>
    <target-ref>develop</target-ref>
    <subject>Add feature B</subject>
    <status>closed</status>
    <user-id>789</user-id>
    <created-at>2026-02-13T09:00:00Z</created-at>
    <updated-at>2026-02-13T18:00:00Z</updated-at>
  </merge-request>
</merge-requests>"#;

    let exchange = Exchange {
        method: "GET",
        path: "/test-project/test-repo/merge_requests",
        expected_body: None,
        status: 200,
        body: xml_response,
    };

    let result = answer::<MergeRequests>(
        list_merge_requests("test-project", "test-repo"),
        &exchange,
    ).map(|all| all.merge_requests);

    assert!(result.is_ok());
    let mrs = result.unwrap();
    assert_eq!(mrs.len(), 3);

    // Verify first merge request
    assert_eq!(mrs[0].id, Some(1));
    assert_eq!(mrs[0].source_ref.as_deref(), Some("feature/feature-a"));
    assert_eq!(mrs[0].status.as_deref(), Some("open"));
    assert_eq!(mrs[0].user_id, Some(123));

    // Verify second merge request
    assert_eq!(mrs[1].id, Some(2));
    assert_eq!(mrs[1].source_ref.as_deref(), Some("bugfix/fix-issue"));
    assert_eq!(mrs[1].status.as_deref(), Some("merged"));
    assert_eq!(mrs[1].user_id, Some(456));

    // Verify third merge request
    assert_eq!(mrs[2].id, Some(3));
    assert_eq!(mrs[2].source_ref.as_deref(), Some("feature/feature-b"));
    assert_eq!(mrs[2].target_ref.as_deref(), Some("develop"));
    assert_eq!(mrs[2].status.as_deref(), Some("closed"));
    assert_eq!(mrs[2].user_id, Some(789));
}

#[test]
fn test_list_merge_requests_empty() {
    let xml_response = r#"<?xml version="1.0" encoding="UTF-8"?>
<merge-requests>
</merge-requests>"#;

    let exchange = Exchange {
        method: "GET",
        path: "/test-project/test-repo/merge_requests",
        expected_body: None,
        status: 200,
        body: xml_response,
    };

    let result = answer::<MergeRequests>(
        list_merge_requests("test-project", "test-repo"),
        &exchange,
    ).map(|all| all.merge_requests);

    assert!(result.is_ok());
    let mrs = result.unwrap();
    assert_eq!(mrs.len(), 0);
}

#[test]
fn test_show_merge_request() {
    let xml_response = r#"<?xml version="1.0" encoding="UTF-8"?>
<merge-request>
  <id>42</id>
  <source-ref>feature/awesome</source-ref>
  <target-ref>main</target-ref>
  <subject>Add awesome feature</subject>
  <status>open</status>
  <user-id>999</user-id>
  <created-at>2026-02-16T08:00:00Z</created-at>
  <updated-at>2026-02-16T09:30:00Z</updated-at>
  <can-merge>true</can-merge>
</merge-request>"#;

    let exchange = Exchange {
        method: "GET",
        path: "/my-project/my-repo/merge_requests/42",
        expected_body: None,
        status: 200,
        body: xml_response,
    };

    let result = answer::<MergeRequest>(show_merge_request("my-project", "my-repo", 42), &exchange);

    assert!(result.is_ok());
    let mr = result.unwrap();

    assert_eq!(mr.id, Some(42));
    assert_eq!(mr.source_ref.as_deref(), Some("feature/awesome"));
    assert_eq!(mr.target_ref.as_deref(), Some("main"));
    assert_eq!(mr.subject.as_deref(), Some("Add awesome feature"));
    assert_eq!(mr.status.as_deref(), Some("open"));
    assert_eq!(mr.user_id, Some(999));
    assert_eq!(mr.created_at.as_deref(), Some("2026-02-16T08:00:00Z"));
    assert_eq!(mr.updated_at.as_deref(), Some("2026-02-16T09:30:00Z"));
    assert_eq!(mr.can_merge, Some(true));
}

#[test]
fn test_show_merge_request_cannot_merge() {
    let xml_response = r#"<?xml version="1.0" encoding="UTF-8"?>
<merge-request>
  <id>55</id>
  <source-ref>feature/conflict</source-ref>
  <target-ref>main</target-ref>
  <subject>Conflicting changes</subject>
  <status>open</status>
  <user-id>123</user-id>
  <created-at>2026-02-15T10:00:00Z</created-at>
  <updated-at>2026-02-15T11:00:00Z</updated-at>
  <can-merge>false</can-merge>
</merge-request>"#;

    let exchange = Exchange {
        method: "GET",
        path: "/my-project/my-repo/merge_requests/55",
        expected_body: None,
        status: 200,
        body: xml_response,
    };

    let result = answer::<MergeRequest>(show_merge_request("my-project", "my-repo", 55), &exchange);

    assert!(result.is_ok());
    let mr = result.unwrap();

    assert_eq!(mr.id, Some(55));
    assert_eq!(mr.can_merge, Some(false));
}

#[test]
fn test_create_merge_request() {
    let xml_response = r#"<?xml version="1.0" encoding="UTF-8"?>
<merge-request>
  <id>100</id>
  <source-ref>feature/new</source-ref>
  <target-ref>main</target-ref>
  <subject>New feature request</subject>
  <status>open</status>
  <user-id>123</user-id>
  <created-at>2026-02-16T10:00:00Z</created-at>
  <updated-at>2026-02-16T10:00:00Z</updated-at>
</merge-request>"#;

    let exchange = Exchange {
        method: "POST",
        path: "/test-project/test-repo/merge_requests",
        expected_body: Some("<merge-request><source-ref>feature/new</source-ref><target-ref>main</target-ref><subject>New feature request</subject></merge-request>"),
        status: 201,
        body: xml_response,
    };

    let result = answer::<MergeRequest>(create_merge_request("test-project",
        "test-repo",
        "feature/new",
        "main",
        "New feature request"), &exchange);

    assert!(result.is_ok());
    let mr = result.unwrap();

    assert_eq!(mr.id, Some(100));
    assert_eq!(mr.source_ref.as_deref(), Some("feature/new"));
    assert_eq!(mr.target_ref.as_deref(), Some("main"));
    assert_eq!(mr.subject.as_deref(), Some("New feature request"));
    assert_eq!(mr.status.as_deref(), Some("open"));
}

#[test]
fn test_comment_merge_request() {
    let exchange = Exchange {
        method: "POST",
        path: "/test-project/test-repo/merge_requests/42/comment",
        expected_body: Some(
            "<merge-request-comment><content><![CDATA[This looks good!]]></content>\
             </merge-request-comment>",
        ),
        status: 201,
        body: "",
    };

    let result =
        answer(comment_merge_request("test-project", "test-repo", 42, "This looks good!"), &exchange).map(|_| ());

    assert!(result.is_ok());
}

#[test]
fn test_close_merge_request() {
    let exchange = Exchange {
        method: "POST",
        path: "/test-project/test-repo/merge_requests/15/close",
        expected_body: None,
        status: 200,
        body: "",
    };

    let result = answer(
        close_merge_request("test-project", "test-repo", 15),
        &exchange,
    ).map(|_| ());

    assert!(result.is_ok());
}

#[test]
fn test_reopen_merge_request() {
    let exchange = Exchange {
        method: "POST",
        path: "/test-project/test-repo/merge_requests/20/reopen",
        expected_body: None,
        status: 200,
        body: "",
    };

    let result = answer(
        reopen_merge_request("test-project", "test-repo", 20),
        &exchange,
    ).map(|_| ());

    assert!(result.is_ok());
}

#[test]
fn test_merge_merge_request() {
    let exchange = Exchange {
        method: "POST",
        path: "/test-project/test-repo/merge_requests/30/merge",
        expected_body: None,
        status: 200,
        body: "",
    };

    let result = answer(
        merge_merge_request("test-project", "test-repo", 30),
        &exchange,
    ).map(|_| ());

    assert!(result.is_ok());
}

#[test]
fn test_reassign_merge_request() {
    let exchange = Exchange {
        method: "POST",
        path: "/test-project/test-repo/merge_requests/25/reassign",
        expected_body: Some("<merge-request><user-id>456</user-id></merge-request>"),
        status: 200,
        body: "",
    };

    let result = answer(
        reassign_merge_request("test-project", "test-repo", 25, 456),
        &exchange,
    ).map(|_| ());

    assert!(result.is_ok());
}

#[test]
fn test_list_merge_requests_error_404() {
    let exchange = Exchange {
        method: "GET",
        path: "/nonexistent/repo/merge_requests",
        expected_body: None,
        status: 404,
        body: "Repository not found",
    };

    let result = answer::<MergeRequests>(
        list_merge_requests("nonexistent", "repo"),
        &exchange,
    ).map(|all| all.merge_requests);

    assert!(result.is_err());
    let error = result.unwrap_err();
    assert!(error.to_string().contains("404"));
}

#[test]
fn test_show_merge_request_error_404() {
    let exchange = Exchange {
        method: "GET",
        path: "/test-project/test-repo/merge_requests/999",
        expected_body: None,
        status: 404,
        body: "Merge request not found",
    };

    let result = answer::<MergeRequest>(
        show_merge_request("test-project", "test-repo", 999),
        &exchange,
    );

    assert!(result.is_err());
    let error = result.unwrap_err();
    assert!(error.to_string().contains("404"));
}

#[test]
fn test_create_merge_request_error_422() {
    let exchange = Exchange {
        method: "POST",
        path: "/test-project/test-repo/merge_requests",
        expected_body: None,
        status: 422,
        body: "Invalid merge request data",
    };

    let result = answer::<MergeRequest>(create_merge_request("test-project",
        "test-repo",
        "invalid-branch",
        "main",
        "Test"), &exchange);

    assert!(result.is_err());
    let error = result.unwrap_err();
    assert!(error.to_string().contains("422"));
}

#[test]
fn test_merge_merge_request_error_409() {
    let exchange = Exchange {
        method: "POST",
        path: "/test-project/test-repo/merge_requests/50/merge",
        expected_body: None,
        status: 409,
        body: "Cannot merge: conflicts exist",
    };

    let result = answer(
        merge_merge_request("test-project", "test-repo", 50),
        &exchange,
    ).map(|_| ());

    assert!(result.is_err());
    let error = result.unwrap_err();
    assert!(error.to_string().contains("409"));
}
