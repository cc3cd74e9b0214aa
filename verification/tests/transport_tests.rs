use codebase_cli::api::client::{
    classify, network_failure, CodebaseClient, Exchange, Method, Request, RetryPolicy,
    TransportError, Verdict, INITIAL_BACKOFF_MS, MAX_ATTEMPTS,
};

/// Drives the retry loop as a caller does, with recorded responses in
/// place of the network and a list of waits in place of sleeping.
fn exchange(
    policy: &RetryPolicy,
    responses: &[(u16, &str)],
) -> (Result<String, TransportError>, Vec<u64>, usize) {
    let mut sleeps = Vec::new();
    let mut attempt = 0u32;
    let mut sent = 0usize;
    loop {
        let (status, body) = responses[sent];
        sent += 1;
        match policy.judge(attempt, status) {
            Verdict::Retry { delay_ms } => {
                sleeps.push(delay_ms);
                attempt += 1;
            }
            Verdict::Deliver => return (classify(status, body.to_string()), sleeps, sent),
        }
    }
}

#[test]
fn retry_then_success_sleeps_twice() {
    let policy = RetryPolicy::standard();
    let (result, sleeps, sent) =
        exchange(&policy, &[(503, "busy"), (503, "busy"), (200, "<ok/>")]);
    assert_eq!(result, Ok("<ok/>".to_string()));
    assert_eq!(sleeps, vec![1000, 2000]);
    assert_eq!(sent, 3);

    let replayed = policy.replay(&vec![503, 503, 200]).expect("a response is delivered");
    assert_eq!(replayed, Exchange { delivered: 2, sleeps: vec![1000, 2000] });
}

#[test]
fn spent_budget_delivers_the_last_response_as_an_api_error() {
    let policy = RetryPolicy::standard();
    let responses = [(503, "one"), (429, "two"), (529, "three"), (503, "four"), (429, "five")];
    let (result, sleeps, sent) = exchange(&policy, &responses);
    assert_eq!(result, Err(TransportError::Api { status: 429, body: "five".to_string() }));
    assert_eq!(sleeps, vec![1000, 2000, 4000, 8000]);
    assert_eq!(sent, 5);
    assert_eq!(sent, MAX_ATTEMPTS as usize);

    let replayed = policy.replay(&vec![503, 429, 529, 503, 429]).expect("delivered");
    assert_eq!(replayed.delivered, 4);
    assert_eq!(replayed.sleeps, vec![1000, 2000, 4000, 8000]);
}

#[test]
fn nothing_is_sent_after_the_last_attempt() {
    let policy = RetryPolicy::standard();
    // A sixth response is on record, and is never asked for.
    let responses = [(503, ""), (503, ""), (503, ""), (503, ""), (503, "fifth"), (200, "sixth")];
    let (result, sleeps, sent) = exchange(&policy, &responses);
    assert_eq!(result, Err(TransportError::Api { status: 503, body: "fifth".to_string() }));
    assert_eq!(sleeps.len(), 4);
    assert_eq!(sent, 5);
    let replayed = policy.replay(&vec![503, 503, 503, 503, 503, 200]).expect("delivered");
    assert_eq!(replayed.delivered, 4);
}

#[test]
fn a_success_at_the_last_attempt_is_a_success() {
    let policy = RetryPolicy::standard();
    let responses = [(503, ""), (503, ""), (503, ""), (503, ""), (200, "done")];
    let (result, sleeps, sent) = exchange(&policy, &responses);
    assert_eq!(result, Ok("done".to_string()));
    assert_eq!(sleeps, vec![1000, 2000, 4000, 8000]);
    assert_eq!(sent, 5);
}

#[test]
fn a_record_that_ends_early_delivers_nothing() {
    let policy = RetryPolicy::standard();
    assert_eq!(policy.replay(&vec![]), None);
    assert_eq!(policy.replay(&vec![503, 429]), None);
    assert_eq!(policy.replay(&vec![503, 503, 503, 503]), None);
    assert!(policy.replay(&vec![503, 503, 503, 503, 503]).is_some());
}

#[test]
fn other_statuses_are_never_retried() {
    let policy = RetryPolicy::standard();
    for status in [200u16, 201, 204, 301, 400, 401, 403, 404, 409, 422, 500, 502, 504] {
        for attempt in [0u32, 1, 3, 4, 5, 6, u32::MAX] {
            assert_eq!(policy.judge(attempt, status), Verdict::Deliver);
        }
        let replayed = policy.replay(&vec![status, 503, 503]).expect("delivered at once");
        assert_eq!(replayed, Exchange { delivered: 0, sleeps: vec![] });
    }
}

#[test]
fn transient_statuses_are_retried_while_attempts_are_left() {
    let policy = RetryPolicy::standard();
    for status in [429u16, 503, 529] {
        assert_eq!(policy.judge(0, status), Verdict::Retry { delay_ms: 1000 });
        assert_eq!(policy.judge(1, status), Verdict::Retry { delay_ms: 2000 });
        assert_eq!(policy.judge(2, status), Verdict::Retry { delay_ms: 4000 });
        assert_eq!(policy.judge(3, status), Verdict::Retry { delay_ms: 8000 });
        assert_eq!(policy.judge(4, status), Verdict::Deliver);
        assert_eq!(policy.judge(5, status), Verdict::Deliver);
        assert_eq!(policy.judge(u32::MAX, status), Verdict::Deliver);
    }
}

#[test]
fn unauthorized_is_not_retried() {
    let policy = RetryPolicy::standard();
    let (result, sleeps, sent) = exchange(&policy, &[(401, "<error>Unauthorized</error>")]);
    assert_eq!(
        result,
        Err(TransportError::Api { status: 401, body: "<error>Unauthorized</error>".to_string() })
    );
    assert!(sleeps.is_empty());
    assert_eq!(sent, 1);
}

#[test]
fn the_standard_policy_is_five_attempts_from_one_second() {
    let policy = RetryPolicy::standard();
    assert_eq!(policy.max_attempts(), 5);
    assert_eq!(policy.initial_backoff_ms(), 1000);
    assert_eq!(MAX_ATTEMPTS, 5);
    assert_eq!(INITIAL_BACKOFF_MS, 1000);
    assert_eq!(policy.backoff_ms(0), 1000);
    assert_eq!(policy.backoff_ms(1), 2000);
    assert_eq!(policy.backoff_ms(3), 8000);
}

#[test]
fn a_policy_of_ones_own() {
    let policy = RetryPolicy::new(3, 250).expect("fits");
    assert_eq!(policy.judge(0, 503), Verdict::Retry { delay_ms: 250 });
    assert_eq!(policy.judge(1, 503), Verdict::Retry { delay_ms: 500 });
    assert_eq!(policy.judge(2, 503), Verdict::Deliver);
    let (result, sleeps, sent) = exchange(&policy, &[(503, "a"), (529, "b"), (429, "c")]);
    assert_eq!(result, Err(TransportError::Api { status: 429, body: "c".to_string() }));
    assert_eq!(sleeps, vec![250, 500]);
    assert_eq!(sent, 3);
    let once = RetryPolicy::new(1, 1000).expect("one attempt and no wait");
    assert_eq!(once.judge(0, 503), Verdict::Deliver);
    assert_eq!(once.replay(&vec![503]), Some(Exchange { delivered: 0, sleeps: vec![] }));
    let idle = RetryPolicy::new(u32::MAX, 0).expect("nothing doubled is nothing");
    assert_eq!(idle.judge(1_000_000, 429), Verdict::Retry { delay_ms: 0 });
    assert_eq!(idle.judge(u32::MAX - 1, 429), Verdict::Deliver);
}

#[test]
fn a_policy_without_an_attempt_is_refused() {
    assert!(RetryPolicy::new(0, 1000).is_none());
    assert!(RetryPolicy::new(0, 0).is_none());
}

#[test]
fn a_policy_whose_waits_overflow_is_refused() {
    // The longest wait of n attempts is the first wait doubled n - 2 times.
    assert!(RetryPolicy::new(66, 1).is_none());
    assert!(RetryPolicy::new(65, 1).is_some());
    assert!(RetryPolicy::new(3, u64::MAX).is_none());
    assert!(RetryPolicy::new(2, u64::MAX).is_some());
    assert!(RetryPolicy::new(1, u64::MAX).is_some());
    assert_eq!(RetryPolicy::new(65, 1).unwrap().backoff_ms(63), 1u64 << 63);
    assert_eq!(
        RetryPolicy::new(2, u64::MAX).unwrap().judge(0, 503),
        Verdict::Retry { delay_ms: u64::MAX }
    );
}

#[test]
fn the_retry_notice_names_status_wait_and_attempt() {
    let policy = RetryPolicy::standard();
    assert_eq!(
        policy.retry_notice(503, 0, 1000),
        "Server returned 503 - retrying in 1000ms (attempt 1/5)"
    );
    assert_eq!(
        policy.retry_notice(429, 3, 8000),
        "Server returned 429 - retrying in 8000ms (attempt 4/5)"
    );
    assert_eq!(
        RetryPolicy::new(3, 250).unwrap().retry_notice(529, 1, 500),
        "Server returned 529 - retrying in 500ms (attempt 2/3)"
    );
}

#[test]
fn classify_splits_at_the_2xx_range() {
    assert_eq!(classify(200, "a".to_string()), Ok("a".to_string()));
    assert_eq!(classify(299, "b".to_string()), Ok("b".to_string()));
    assert_eq!(classify(204, String::new()), Ok(String::new()));
    for status in [0u16, 100, 199, 300, 404, 500, 503, u16::MAX] {
        assert_eq!(
            classify(status, "x".to_string()),
            Err(TransportError::Api { status, body: "x".to_string() })
        );
    }
}

#[test]
fn a_network_failure_is_final() {
    assert_eq!(
        network_failure("dns error".to_string()),
        Err(TransportError::Network("dns error".to_string()))
    );
}

#[test]
fn what_a_client_sends_for_each_method() {
    let client = CodebaseClient::with_base_url(
        "http://localhost".to_string(),
        "acme".to_string(),
        "acme/jo".to_string(),
        "secret".to_string(),
    );
    let get = client.get("/projects");
    assert_eq!(get.method, Method::Get);
    assert_eq!(get.url, "http://localhost/projects");
    assert_eq!(get.body, None);
    let post = client.post("/create_project", "<project/>".to_string());
    assert_eq!(post.method, Method::Post);
    assert_eq!(post.body.as_deref(), Some("<project/>"));
    let put = client.put("/project/web", "<project/>".to_string());
    assert_eq!(put.method, Method::Put);
    assert_eq!(put.url, "http://localhost/project/web");
    assert_eq!(put.password, "secret");
    let delete = client.delete("/web");
    assert_eq!(delete.method, Method::Delete);
    assert_eq!(delete.body, None);
    assert_eq!(delete.username, "acme/jo");
    let other = client.request(Method::Put, "/x", None);
    assert_eq!(other.method, Method::Put);
    assert_eq!(other.accept, "application/xml");
    assert_eq!(other.content_type, "application/xml");
}

#[test]
fn error_messages() {
    let api = TransportError::Api { status: 404, body: "<error>Not found</error>".to_string() };
    assert_eq!(api.message(), "API error (404): <error>Not found</error>");
    let network = TransportError::Network("connection refused".to_string());
    assert_eq!(network.message(), "Failed to send request: connection refused");
}

#[test]
fn a_client_joins_base_and_path() {
    let client = CodebaseClient::new("acme".to_string(), "acme/jo".to_string(), "k".to_string());
    assert_eq!(client.base_url, "https://api3.codebasehq.com");
    assert_eq!(client.account, "acme");
    assert_eq!(client.url("/projects"), "https://api3.codebasehq.com/projects");
    let local = CodebaseClient::with_base_url(
        "http://127.0.0.1:8080".to_string(),
        "acme".to_string(),
        "jo".to_string(),
        "secret".to_string(),
    );
    assert_eq!(local.url("/a/b?c=d"), "http://127.0.0.1:8080/a/b?c=d");
    assert_eq!(local.url(""), "http://127.0.0.1:8080");
}

#[test]
fn a_prepared_request_carries_credentials_and_content_headers() {
    let client = CodebaseClient::with_base_url(
        "http://localhost".to_string(),
        "acme".to_string(),
        "acme/jo".to_string(),
        "secret".to_string(),
    );
    let get = client.prepare(&Request::bare(Method::Get, "/projects".to_string()));
    assert_eq!(get.method, Method::Get);
    assert_eq!(get.url, "http://localhost/projects");
    assert_eq!(get.username, "acme/jo");
    assert_eq!(get.password, "secret");
    assert_eq!(get.accept, "application/xml");
    assert_eq!(get.content_type, "application/xml");
    assert_eq!(get.body, None);
    let post = client.prepare(&Request::with_body(
        Method::Post,
        "/create_project".to_string(),
        "<project><name>x</name></project>".to_string(),
    ));
    assert_eq!(post.method, Method::Post);
    assert_eq!(post.body.as_deref(), Some("<project><name>x</name></project>"));
    assert_eq!(post.accept, "application/xml");
}
