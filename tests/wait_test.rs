use sailhouse::{
    Error, Method, Reply, SailhouseClient, WaitError, WaitEvent, WaitOptions, WaitStep,
};

const BASE: &str = "http://127.0.0.1:1234";

fn create_test_client() -> SailhouseClient {
    SailhouseClient::with_base_url("test-token".to_string(), BASE.to_string())
}

fn ok(status: u16, body: &str) -> Reply<String> {
    Reply::Received { status, body: Some(body.to_string()) }
}

fn event(topic: &str, body: &str) -> WaitEvent {
    WaitEvent { topic: topic.to_string(), body: body.to_string(), metadata: None, send_at: None }
}

fn sent(step: WaitStep) -> sailhouse::Request {
    match step {
        WaitStep::Send(r) => r,
        WaitStep::Done(res) => panic!("expected a request, the run ended with {:?}", res),
    }
}

fn done(step: WaitStep) -> Result<(), WaitError> {
    match step {
        WaitStep::Done(res) => res,
        WaitStep::Send(r) => panic!("expected the end, got a request to {}", r.url),
    }
}

#[test]
fn test_wait() {
    let client = create_test_client();
    let events = vec![
        event("test-topic", r#"{"message":"event 1"}"#),
        WaitEvent {
            topic: "test-topic".to_string(),
            body: r#"{"message":"event 2"}"#.to_string(),
            metadata: Some(vec![("source".to_string(), "test".to_string())]),
            send_at: None,
        },
    ];
    let options = WaitOptions { ttl: Some("5m".to_string()) };
    let (mut group, create) = client.wait("test-topic", events, Some(options));
    assert_eq!(create.method, Method::Post);
    assert_eq!(create.url, format!("{}/waitgroups/instances", BASE));
    assert_eq!(create.body.as_deref(), Some(r#"{"topic":"test-topic","ttl":"5m"}"#));
    assert_eq!(create.headers[0].1, "test-token");

    let p1 = sent(group.advance(ok(200, "test-wait-group-id")));
    assert_eq!(p1.method, Method::Post);
    assert_eq!(p1.url, format!("{}/topics/test-topic/events", BASE));
    assert_eq!(
        p1.body.as_deref(),
        Some(r#"{"data":{"message":"event 1"},"wait_group_instance_id":"test-wait-group-id"}"#)
    );
    let p2 = sent(group.advance(ok(201, "event-id")));
    assert_eq!(p2.url, format!("{}/topics/test-topic/events", BASE));
    assert_eq!(
        p2.body.as_deref(),
        Some(
            r#"{"data":{"message":"event 2"},"metadata":{"source":"test"},"wait_group_instance_id":"test-wait-group-id"}"#
        )
    );
    let complete = sent(group.advance(ok(201, "event-id")));
    assert_eq!(complete.method, Method::Put);
    assert_eq!(complete.url, format!("{}/waitgroups/instances/test-wait-group-id/events", BASE));
    assert_eq!(complete.body.as_deref(), Some("{}"));
    assert!(!group.is_finished());
    let result = done(group.advance(ok(200, "")));
    assert!(result.is_ok());
    assert!(group.is_finished());
}

#[test]
fn orders_example_scenario() {
    let client = create_test_client();
    let events = vec![event("orders", r#"{"n":1}"#), event("orders", r#"{"n":2}"#)];
    let (mut group, create) =
        client.wait("orders", events, Some(WaitOptions { ttl: Some("5m".to_string()) }));
    assert_eq!(create.body.as_deref(), Some(r#"{"topic":"orders","ttl":"5m"}"#));
    let mut publishes = Vec::new();
    let mut step = group.advance(ok(200, "wg-42"));
    let mut puts = 0;
    loop {
        match step {
            WaitStep::Send(r) if r.method == Method::Post => {
                assert_eq!(r.url, format!("{}/topics/orders/events", BASE));
                publishes.push(r.body.unwrap());
                step = group.advance(ok(201, "e"));
            }
            WaitStep::Send(r) => {
                assert_eq!(r.method, Method::Put);
                puts += 1;
                step = group.advance(ok(204, ""));
            }
            WaitStep::Done(res) => {
                assert_eq!(res, Ok(()));
                break;
            }
        }
    }
    assert_eq!(
        publishes,
        vec![
            r#"{"data":{"n":1},"wait_group_instance_id":"wg-42"}"#.to_string(),
            r#"{"data":{"n":2},"wait_group_instance_id":"wg-42"}"#.to_string(),
        ]
    );
    assert_eq!(puts, 1);
}

#[test]
fn wait_with_no_events_creates_then_completes() {
    let client = create_test_client();
    let (mut group, create) = client.wait("t", Vec::new(), None);
    assert_eq!(create.body.as_deref(), Some(r#"{"topic":"t"}"#));
    let complete = sent(group.advance(ok(200, "id-0")));
    assert_eq!(complete.method, Method::Put);
    assert_eq!(complete.url, format!("{}/waitgroups/instances/id-0/events", BASE));
    assert_eq!(done(group.advance(ok(200, ""))), Ok(()));
}

#[test]
fn wait_publishes_on_each_events_own_topic() {
    let client = create_test_client();
    let events = vec![event("a", "1"), event("b", "2"), event("a", "3")];
    let (mut group, _) = client.wait("group-topic", events, None);
    let urls: Vec<String> = vec![
        sent(group.advance(ok(200, "g"))).url,
        sent(group.advance(ok(201, "x"))).url,
        sent(group.advance(ok(201, "x"))).url,
    ];
    assert_eq!(
        urls,
        vec![
            format!("{}/topics/a/events", BASE),
            format!("{}/topics/b/events", BASE),
            format!("{}/topics/a/events", BASE),
        ]
    );
}

#[test]
fn wait_setup_failure_publishes_nothing() {
    let client = create_test_client();
    let (mut g1, _) = client.wait("t", vec![event("t", "1")], None);
    assert_eq!(
        done(g1.advance(Reply::Unsent("connection refused".to_string()))),
        Err(WaitError::SetupFailed(Error::Transport("connection refused".to_string())))
    );
    assert!(g1.is_finished());
    let (mut g2, _) = client.wait("t", vec![event("t", "1")], None);
    assert_eq!(
        done(g2.advance(ok(500, "x"))),
        Err(WaitError::SetupFailed(Error::UnexpectedStatus(500)))
    );
    let (mut g3, _) = client.wait("t", vec![event("t", "1")], None);
    assert_eq!(
        done(g3.advance(ok(200, ""))),
        Err(WaitError::SetupFailed(Error::EmptyInstanceId))
    );
    let (mut g4, _) = client.wait("t", vec![event("t", "1")], None);
    assert_eq!(
        done(g4.advance(Reply::Received { status: 200, body: None })),
        Err(WaitError::SetupFailed(Error::Decode))
    );
}

#[test]
fn wait_publish_failure_stops_the_run() {
    let client = create_test_client();
    let events = vec![event("t", "1"), event("t", "2"), event("t", "3")];
    let (mut group, _) = client.wait("t", events, None);
    sent(group.advance(ok(200, "g")));
    sent(group.advance(ok(201, "e1")));
    assert_eq!(
        done(group.advance(ok(500, "boom"))),
        Err(WaitError::PublishFailed(1, Error::UnexpectedStatus(500)))
    );
    assert!(group.is_finished());
}

#[test]
fn wait_completion_failure_is_reported() {
    let client = create_test_client();
    let (mut group, _) = client.wait("t", vec![event("t", "1")], None);
    sent(group.advance(ok(200, "g")));
    sent(group.advance(ok(201, "e")));
    assert_eq!(
        done(group.advance(ok(404, ""))),
        Err(WaitError::CompletionFailed(Error::UnexpectedStatus(404)))
    );
}
