use sailhouse::{
    AdminClient, Error, Event, EventResponse, EventsPage, Expect, FilterOption, GetOption, Method,
    PublishBody, PublishResponse, RegisterResult, Reply, Request, SailhouseClient, Timestamp,
};

const BASE: &str = "http://127.0.0.1:1234";

fn create_test_client() -> SailhouseClient {
    SailhouseClient::with_base_url("test-token".to_string(), BASE.to_string())
}

fn assert_headers(req: &Request) {
    assert_eq!(
        req.headers,
        vec![
            ("Authorization".to_string(), "test-token".to_string()),
            ("x-source".to_string(), "sailhouse-rust".to_string()),
        ]
    );
}

fn message(text: &str) -> serde_json::Value {
    let mut m = serde_json::Map::new();
    m.insert("message".to_string(), serde_json::Value::from(text));
    serde_json::Value::Object(m)
}

#[test]
fn test_publish() {
    let client = create_test_client();
    let data = message("test message").to_string();
    let req = client.publish("test-topic", data).request();
    assert_eq!(req.method, Method::Post);
    assert_eq!(req.url, format!("{}/topics/test-topic/events", BASE));
    assert_headers(&req);
    assert_eq!(req.body.as_deref(), Some(r#"{"data":{"message":"test message"}}"#));
    assert_eq!(req.expects, Expect::EventId);
    let reply = Reply::Received {
        status: 201,
        body: Some(PublishResponse { id: "test-event-id".to_string() }),
    };
    let result = SailhouseClient::publish_result(reply);
    assert!(result.is_ok());
    assert_eq!(result.unwrap().id, "test-event-id");
}

#[test]
fn test_get_events() {
    let client = create_test_client();
    let opts = GetOption { limit: Some(10), offset: Some(0) };
    let req = client.get_events_request("test-topic", "test-sub", opts);
    assert_eq!(req.method, Method::Get);
    assert_eq!(
        req.url,
        format!("{}/topics/test-topic/subscriptions/test-sub/events?limit=10&offset=0", BASE)
    );
    assert_headers(&req);
    assert_eq!(req.body, None);
    let page = EventsPage {
        events: vec![EventResponse { id: "event-1".to_string(), data: message("test message") }],
        offset: 0,
        limit: 10,
    };
    let result = client
        .get_events_result("test-topic", "test-sub", Reply::Received { status: 200, body: Some(page) })
        .unwrap();
    assert_eq!(result.events.len(), 1);
    assert_eq!(result.events[0].id, "event-1");
    assert_eq!(result.offset, 0);
    assert_eq!(result.limit, 10);
}

#[test]
fn test_acknowledge_message() {
    let client = create_test_client();
    let req = client.acknowledge_message_request("test-topic", "test-sub", "event-1");
    assert_eq!(req.method, Method::Post);
    assert_eq!(req.url, format!("{}/topics/test-topic/subscriptions/test-sub/events/event-1", BASE));
    assert_headers(&req);
    assert_eq!(req.body.as_deref(), Some("{}"));
    let result = SailhouseClient::acknowledge_result(Reply::Received { status: 200, body: Some(()) });
    assert!(result.is_ok());
}

#[test]
fn test_event_ack() {
    let client = create_test_client();
    let event = Event {
        id: "event-1".to_string(),
        data: serde_json::Value::Object(serde_json::Map::new()),
        topic: "test-topic".to_string(),
        subscription: "test-sub".to_string(),
        client: Some(client),
    };
    let req = event.ack_request().expect("a bound event is acknowledged through its client");
    assert_eq!(req.method, Method::Post);
    assert_eq!(req.url, format!("{}/topics/test-topic/subscriptions/test-sub/events/event-1", BASE));
    assert_headers(&req);
}

#[test]
fn ack_without_client_sends_nothing() {
    let event = Event {
        id: "event-1".to_string(),
        data: serde_json::Value::Null,
        topic: "test-topic".to_string(),
        subscription: "test-sub".to_string(),
        client: None,
    };
    assert!(event.ack_request().is_none());
}

#[test]
fn default_client_targets_public_service() {
    let client = SailhouseClient::new("tok".to_string());
    assert_eq!(client.base_url(), "https://api.sailhouse.dev");
    let req = client.publish("t", "1".to_string()).request();
    assert_eq!(req.url, "https://api.sailhouse.dev/topics/t/events");
    assert_eq!(req.headers[0], ("Authorization".to_string(), "tok".to_string()));
}

#[test]
fn get_events_stamps_every_event() {
    let client = create_test_client();
    let page = EventsPage {
        events: vec![
            EventResponse { id: "a".to_string(), data: serde_json::Value::from(1) },
            EventResponse { id: "b".to_string(), data: serde_json::Value::from(2) },
            EventResponse { id: "c".to_string(), data: serde_json::Value::from(3) },
        ],
        offset: 5,
        limit: 3,
    };
    let result = client
        .get_events_result("orders", "billing", Reply::Received { status: 200, body: Some(page) })
        .unwrap();
    let ids: Vec<&str> = result.events.iter().map(|e| e.id.as_str()).collect();
    assert_eq!(ids, vec!["a", "b", "c"]);
    for (i, e) in result.events.iter().enumerate() {
        assert_eq!(e.topic, "orders");
        assert_eq!(e.subscription, "billing");
        assert_eq!(e.data, serde_json::Value::from(i as i64 + 1));
        let ack = e.ack_request().unwrap();
        assert_eq!(ack.url, format!("{}/topics/orders/subscriptions/billing/events/{}", BASE, e.id));
    }
}

#[test]
fn get_events_errors() {
    let client = create_test_client();
    let r = client.get_events_result("t", "s", Reply::Received { status: 404, body: None });
    assert!(matches!(r, Err(Error::UnexpectedStatus(404))));
    let r = client.get_events_result("t", "s", Reply::Received { status: 200, body: None });
    assert!(matches!(r, Err(Error::Decode)));
    let r = client.get_events_result("t", "s", Reply::Unsent("refused".to_string()));
    assert!(matches!(r, Err(Error::Transport(ref m)) if m == "refused"));
}

#[test]
fn get_events_query_only_for_given_bounds() {
    let client = create_test_client();
    let base = format!("{}/topics/t/subscriptions/s/events", BASE);
    let none = client.get_events_request("t", "s", GetOption { limit: None, offset: None });
    assert_eq!(none.url, base);
    let only_offset = client.get_events_request("t", "s", GetOption { limit: None, offset: Some(5) });
    assert_eq!(only_offset.url, format!("{}?offset=5", base));
    let only_limit =
        client.get_events_request("t", "s", GetOption { limit: Some(1234567), offset: None });
    assert_eq!(only_limit.url, format!("{}?limit=1234567", base));
}

#[test]
fn decimal_digits() {
    assert_eq!(sailhouse::decimal(0), "0");
    assert_eq!(sailhouse::decimal(9), "9");
    assert_eq!(sailhouse::decimal(10), "10");
    assert_eq!(sailhouse::decimal(usize::MAX), usize::MAX.to_string());
}

#[test]
fn publish_status_errors() {
    let r = SailhouseClient::publish_result(Reply::Received {
        status: 200,
        body: Some(PublishResponse { id: "x".to_string() }),
    });
    assert_eq!(r, Err(Error::UnexpectedStatus(200)));
    let r = SailhouseClient::publish_result(Reply::Received { status: 201, body: None });
    assert_eq!(r, Err(Error::Decode));
    let r = SailhouseClient::acknowledge_result(Reply::Received { status: 204, body: Some(()) });
    assert_eq!(r, Err(Error::UnexpectedStatus(204)));
}

#[test]
fn envelope_without_options_has_data_only() {
    let body = PublishBody {
        data: "[1,2]".to_string(),
        metadata: None,
        send_at: None,
        wait_group_instance_id: None,
    };
    assert_eq!(body.encode(), r#"{"data":[1,2]}"#);
}

#[test]
fn envelope_with_every_option() {
    let body = PublishBody {
        data: "true".to_string(),
        metadata: Some(vec![
            ("a".to_string(), "1".to_string()),
            ("b".to_string(), "say \"hi\"".to_string()),
        ]),
        send_at: Some("2024-01-02T03:04:05+00:00".to_string()),
        wait_group_instance_id: Some("wg-1".to_string()),
    };
    assert_eq!(
        body.encode(),
        r#"{"data":true,"metadata":{"a":"1","b":"say \"hi\""},"send_at":"2024-01-02T03:04:05+00:00","wait_group_instance_id":"wg-1"}"#
    );
    let parsed: serde_json::Value = serde_json::from_str(&body.encode()).unwrap();
    assert!(parsed.get("metadata").unwrap().is_object());
}

#[test]
fn builder_sets_optional_fields() {
    let client = create_test_client();
    let at = Timestamp::from_unix(1_700_000_000, 0).unwrap();
    let req = client
        .publish("news", "{}".to_string())
        .with_metadata(vec![("k".to_string(), "v".to_string())])
        .with_scheduled_time(at)
        .with_wait_group("g".to_string())
        .request();
    assert_eq!(
        req.body.as_deref(),
        Some(
            r#"{"data":{},"metadata":{"k":"v"},"send_at":"2023-11-14T22:13:20+00:00","wait_group_instance_id":"g"}"#
        )
    );
}

#[test]
fn timestamp_text() {
    let t = Timestamp::from_unix(0, 0).unwrap();
    assert_eq!(t.to_rfc3339(), "1970-01-01T00:00:00+00:00");
    assert_eq!(t.secs(), 0);
    let t = Timestamp::from_unix(1, 500_000_000).unwrap();
    assert_eq!(t.to_rfc3339(), "1970-01-01T00:00:01.500+00:00");
    assert_eq!(t.nanos(), 500_000_000);
    assert!(Timestamp::from_unix(i64::MAX, 0).is_none());
}

#[test]
fn register_push_subscription_plan() {
    let admin = AdminClient::new(create_test_client());
    let req = admin.register_push_subscription_request(
        "t",
        "s",
        "https://example.com/hook",
        Some(FilterOption { path: "kind".to_string(), value: "a".to_string() }),
    );
    assert_eq!(req.method, Method::Put);
    assert_eq!(req.url, format!("{}/topics/t/subscriptions/s", BASE));
    assert_eq!(
        req.body.as_deref(),
        Some(r#"{"type":"push","endpoint":"https://example.com/hook","filter":{"path":"kind","value":"a"}}"#)
    );
    let plain = admin.register_push_subscription_request("t", "s", "e", None);
    assert_eq!(plain.body.as_deref(), Some(r#"{"type":"push","endpoint":"e"}"#));
    let r = AdminClient::register_result(Reply::Received {
        status: 409,
        body: Some(RegisterResult { outcome: "none".to_string() }),
    });
    assert_eq!(r.unwrap().outcome, "none");
}
