use vstd::prelude::*;
use crate::decimal::{decimal, decimal_text};
use crate::envelope::{opt_pairs, PublishBody, Timestamp};
use crate::json::{copy_pairs, encode_object, object_text, push_text};
use crate::request::{judge, judged, opt_text, Error, Expect, Method, Reply, Request, RequestView, Success};

verus! {

/// serde_json's `Value`: an event's payload, carried through unread.
#[verifier::external_type_specification]
#[verifier::external_body]
pub struct ExValue(serde_json::Value);

/// The address of the public service.
pub open spec fn default_base_url() -> Seq<char> {
    "https://api.sailhouse.dev"@
}

/// The two headers sent with every request: the token verbatim, and the
/// client's source tag.
pub open spec fn auth_headers(token: Seq<char>) -> Seq<(Seq<char>, Seq<char>)> {
    seq![("Authorization"@, token), ("x-source"@, "sailhouse-rust"@)]
}

pub open spec fn publish_url(base: Seq<char>, topic: Seq<char>) -> Seq<char> {
    base + "/topics/"@ + topic + "/events"@
}

/// The query of a get-events request: each bound that is given, none otherwise.
pub open spec fn query_text(limit: Option<usize>, offset: Option<usize>) -> Seq<char> {
    match (limit, offset) {
        (None, None) => Seq::empty(),
        (Some(l), None) => "?limit="@ + decimal_text(l as nat),
        (None, Some(o)) => "?offset="@ + decimal_text(o as nat),
        (Some(l), Some(o)) => "?limit="@ + decimal_text(l as nat) + "&offset="@ + decimal_text(
            o as nat,
        ),
    }
}

pub open spec fn events_url(
    base: Seq<char>,
    topic: Seq<char>,
    subscription: Seq<char>,
    limit: Option<usize>,
    offset: Option<usize>,
) -> Seq<char> {
    base + "/topics/"@ + topic + "/subscriptions/"@ + subscription + "/events"@ + query_text(
        limit,
        offset,
    )
}

pub open spec fn ack_url(base: Seq<char>, topic: Seq<char>, subscription: Seq<char>, id: Seq<char>) -> Seq<char> {
    base + "/topics/"@ + topic + "/subscriptions/"@ + subscription + "/events/"@ + id
}

/// The mathematical value of a client: its token and base address.
pub struct ClientView {
    pub token: Seq<char>,
    pub base_url: Seq<char>,
}

/// The client's configuration: the credential and the service's address.
/// It never changes after construction.
#[derive(Debug)]
pub struct SailhouseClient {
    token: String,
    base_url: String,
}

impl View for SailhouseClient {
    type V = ClientView;

    closed spec fn view(&self) -> ClientView {
        ClientView { token: self.token@, base_url: self.base_url@ }
    }
}

impl Clone for SailhouseClient {
    fn clone(&self) -> (r: Self)
        ensures
            r@ == self@,
    {
        SailhouseClient { token: self.token.clone(), base_url: self.base_url.clone() }
    }
}

/// A request with the client's headers.
pub open spec fn planned(
    c: ClientView,
    method: Method,
    url: Seq<char>,
    body: Option<Seq<char>>,
    expects: Expect,
) -> RequestView {
    RequestView { method, url, headers: auth_headers(c.token), body, expects }
}

/// The publish request for a body already written as JSON text.
pub open spec fn publish_plan(c: ClientView, topic: Seq<char>, body: Seq<char>) -> RequestView {
    planned(c, Method::Post, publish_url(c.base_url, topic), Some(body), Expect::EventId)
}

pub open spec fn get_events_plan(
    c: ClientView,
    topic: Seq<char>,
    subscription: Seq<char>,
    limit: Option<usize>,
    offset: Option<usize>,
) -> RequestView {
    planned(
        c,
        Method::Get,
        events_url(c.base_url, topic, subscription, limit, offset),
        None,
        Expect::EventsPage,
    )
}

pub open spec fn ack_plan(c: ClientView, topic: Seq<char>, subscription: Seq<char>, id: Seq<char>) -> RequestView {
    planned(
        c,
        Method::Post,
        ack_url(c.base_url, topic, subscription, id),
        Some(object_text(Seq::empty())),
        Expect::Nothing,
    )
}

/// Writes the query of a get-events request.
fn query(limit: Option<usize>, offset: Option<usize>) -> (r: String)
    ensures
        r@ == query_text(limit, offset),
{
    let mut q = String::new();
    match limit {
        Some(l) => {
            push_text(&mut q, "?limit=");
            push_text(&mut q, decimal(l).as_str());
            match offset {
                Some(o) => {
                    push_text(&mut q, "&offset=");
                    push_text(&mut q, decimal(o).as_str());
                },
                None => {},
            }
        },
        None => {
            match offset {
                Some(o) => {
                    push_text(&mut q, "?offset=");
                    push_text(&mut q, decimal(o).as_str());
                },
                None => {},
            }
        },
    }
    q
}

/// Pagination bounds of a get-events request; an absent bound is left to the service.
#[derive(Clone, Copy, Debug, PartialEq, Eq, Structural)]
pub struct GetOption {
    pub limit: Option<usize>,
    pub offset: Option<usize>,
}

/// The reply to a publish.
#[derive(Clone, Debug, PartialEq, Eq)]
pub struct PublishResponse {
    pub id: String,
}

/// One event as the service sends it.
#[derive(Debug)]
pub struct EventResponse {
    pub id: String,
    pub data: serde_json::Value,
}

/// The body of a get-events reply as the service sends it.
#[derive(Debug)]
pub struct EventsPage {
    pub events: Vec<EventResponse>,
    pub offset: i32,
    pub limit: i32,
}

/// An event pulled from a subscription. `client`, when present, is the
/// configuration of the client that fetched it, used only to acknowledge it.
#[derive(Debug)]
pub struct Event {
    pub id: String,
    pub data: serde_json::Value,
    pub topic: String,
    pub subscription: String,
    pub client: Option<SailhouseClient>,
}

/// The events of a subscription, with the pagination bounds the service echoed.
#[derive(Debug)]
pub struct GetEventsResponse {
    pub events: Vec<Event>,
    pub offset: i32,
    pub limit: i32,
}

/// `e` is the wire event `w` pulled by client `c` from `topic` / `subscription`.
pub open spec fn stamped(
    e: Event,
    w: EventResponse,
    c: ClientView,
    topic: Seq<char>,
    subscription: Seq<char>,
) -> bool {
    &&& e.id == w.id
    &&& e.data == w.data
    &&& e.topic@ == topic
    &&& e.subscription@ == subscription
    &&& e.client matches Some(h) && h@ == c
}

/// A builder for one publish: the payload (JSON text) and its optional fields.
pub struct PublishBuilder<'a> {
    pub client: &'a SailhouseClient,
    pub topic: String,
    pub data: String,
    pub metadata: Option<Vec<(String, String)>>,
    pub send_at: Option<Timestamp>,
    pub wait_group_instance_id: Option<String>,
}

/// The RFC 3339 text of an optional instant.
pub open spec fn opt_time(t: Option<Timestamp>) -> Option<Seq<char>> {
    match t {
        Some(x) => Some(x.text_spec()),
        None => None,
    }
}

pub(crate) fn time_text(t: &Option<Timestamp>) -> (r: Option<String>)
    ensures
        opt_text(r) == opt_time(*t),
{
    match t {
        Some(x) => Some(x.to_rfc3339()),
        None => None,
    }
}

pub(crate) fn copy_opt_pairs(m: &Option<Vec<(String, String)>>) -> (r: Option<Vec<(String, String)>>)
    ensures
        opt_pairs(r) == opt_pairs(*m),
{
    match m {
        Some(v) => Some(copy_pairs(v)),
        None => None,
    }
}

impl<'a> PublishBuilder<'a> {
    /// The JSON text that `request` sends.
    pub open spec fn body_text(&self) -> Seq<char> {
        crate::envelope::envelope_text(
            self.data@,
            opt_pairs(self.metadata),
            opt_time(self.send_at),
            opt_text(self.wait_group_instance_id),
        )
    }

    /// Sets the metadata pairs.
    pub fn with_metadata(self, metadata: Vec<(String, String)>) -> (r: Self)
        ensures
            r == (PublishBuilder { metadata: Some(metadata), ..self }),
    {
        PublishBuilder { metadata: Some(metadata), ..self }
    }

    /// Schedules delivery at `send_at`.
    pub fn with_scheduled_time(self, send_at: Timestamp) -> (r: Self)
        ensures
            r == (PublishBuilder { send_at: Some(send_at), ..self }),
    {
        PublishBuilder { send_at: Some(send_at), ..self }
    }

    /// Tags the event with a wait-group instance.
    pub fn with_wait_group(self, wait_group_id: String) -> (r: Self)
        ensures
            r == (PublishBuilder { wait_group_instance_id: Some(wait_group_id), ..self }),
    {
        PublishBuilder { wait_group_instance_id: Some(wait_group_id), ..self }
    }

    /// The request that sends this event.
    pub fn request(self) -> (r: Request)
        ensures
            r@ == publish_plan(self.client@, self.topic@, self.body_text()),
    {
        let body = PublishBody {
            data: self.data,
            metadata: self.metadata,
            send_at: time_text(&self.send_at),
            wait_group_instance_id: self.wait_group_instance_id,
        };
        self.client.publish_request(self.topic.as_str(), &body)
    }
}

impl SailhouseClient {
    /// A client of the public service.
    pub fn new(token: String) -> (r: Self)
        ensures
            r@.token == token@,
            r@.base_url == default_base_url(),
    {
        SailhouseClient { token, base_url: "https://api.sailhouse.dev".to_string() }
    }

    /// A client of the service at `base_url`.
    pub fn with_base_url(token: String, base_url: String) -> (r: Self)
        ensures
            r@.token == token@,
            r@.base_url == base_url@,
    {
        SailhouseClient { token, base_url }
    }

    /// The service's address.
    pub fn base_url(&self) -> (r: &str)
        ensures
            r@ == self@.base_url,
    {
        self.base_url.as_str()
    }

    pub(crate) fn plan(&self, method: Method, url: String, body: Option<String>, expects: Expect) -> (r: Request)
        ensures
            r@ == planned(self@, method, url@, opt_text(body), expects),
    {
        let mut headers: Vec<(String, String)> = Vec::new();
        headers.push(("Authorization".to_string(), self.token.clone()));
        headers.push(("x-source".to_string(), "sailhouse-rust".to_string()));
        proof {
            assert(headers.deep_view() =~= auth_headers(self@.token));
        }
        Request { method, url, headers, body, expects }
    }

    /// Starts a publish of `data` (JSON text) to `topic`, with no optional field set.
    pub fn publish(&self, topic: &str, data: String) -> (r: PublishBuilder)
        ensures
            r.client == self,
            r.topic@ == topic@,
            r.data == data,
            r.metadata is None,
            r.send_at is None,
            r.wait_group_instance_id is None,
    {
        PublishBuilder {
            client: self,
            topic: topic.to_string(),
            data,
            metadata: None,
            send_at: None,
            wait_group_instance_id: None,
        }
    }

    /// The request that publishes `body` to `topic`.
    pub fn publish_request(&self, topic: &str, body: &PublishBody) -> (r: Request)
        ensures
            r@ == publish_plan(self@, topic@, body.text()),
    {
        let mut url = self.base_url.clone();
        push_text(&mut url, "/topics/");
        push_text(&mut url, topic);
        push_text(&mut url, "/events");
        let text = body.encode();
        self.plan(Method::Post, url, Some(text), Expect::EventId)
    }

    /// The outcome of a publish: success only on status 201.
    pub fn publish_result(reply: Reply<PublishResponse>) -> (r: Result<PublishResponse, Error>)
        ensures
            r == judged(reply, Success::Exactly(201)),
    {
        judge(reply, Success::Exactly(201))
    }

    /// The request that pulls events of `subscription` on `topic`.
    pub fn get_events_request(&self, topic: &str, subscription: &str, opts: GetOption) -> (r: Request)
        ensures
            r@ == get_events_plan(self@, topic@, subscription@, opts.limit, opts.offset),
    {
        let mut url = self.base_url.clone();
        push_text(&mut url, "/topics/");
        push_text(&mut url, topic);
        push_text(&mut url, "/subscriptions/");
        push_text(&mut url, subscription);
        push_text(&mut url, "/events");
        let query = query(opts.limit, opts.offset);
        push_text(&mut url, query.as_str());
        self.plan(Method::Get, url, None, Expect::EventsPage)
    }

    /// The outcome of a get-events call: on status 200 with a decoded page,
    /// its events in the order received, each stamped with `topic`,
    /// `subscription` and this client; otherwise the error of the reply.
    pub fn get_events_result(&self, topic: &str, subscription: &str, reply: Reply<EventsPage>) -> (r:
        Result<GetEventsResponse, Error>)
        ensures
            judged(reply, Success::Exactly(200)) matches Err(e) ==> r == Err::<GetEventsResponse, Error>(e),
            judged(reply, Success::Exactly(200)) matches Ok(page) ==> r matches Ok(resp) && {
                &&& resp.offset == page.offset
                &&& resp.limit == page.limit
                &&& resp.events.len() == page.events.len()
                &&& forall|i: int|
                    0 <= i < resp.events.len() ==> stamped(
                        #[trigger] resp.events@[i],
                        page.events@[i],
                        self@,
                        topic@,
                        subscription@,
                    )
            },
    {
        match judge(reply, Success::Exactly(200)) {
            Err(e) => Err(e),
            Ok(page) => {
                let EventsPage { events: wire, offset, limit } = page;
                let ghost original = wire@;
                let mut wire = wire;
                let mut rev: Vec<Event> = Vec::new();
                // Taken from the back, then turned round.
                while wire.len() > 0
                    invariant
                        wire@ == original.take(wire.len() as int),
                        wire.len() + rev.len() == original.len(),
                        forall|j: int|
                            0 <= j < rev.len() ==> stamped(
                                #[trigger] rev@[j],
                                original[original.len() - 1 - j],
                                self@,
                                topic@,
                                subscription@,
                            ),
                    decreases wire.len(),
                {
                    let w = wire.pop().unwrap();
                    proof {
                        assert(wire@ =~= original.take(wire.len() as int));
                    }
                    rev.push(
                        Event {
                            id: w.id,
                            data: w.data,
                            topic: topic.to_string(),
                            subscription: subscription.to_string(),
                            client: Some(self.clone()),
                        },
                    );
                }
                let mut events: Vec<Event> = Vec::new();
                let n = rev.len();
                while rev.len() > 0
                    invariant
                        n == original.len(),
                        rev.len() + events.len() == n,
                        forall|j: int|
                            0 <= j < rev.len() ==> stamped(
                                #[trigger] rev@[j],
                                original[n - 1 - j],
                                self@,
                                topic@,
                                subscription@,
                            ),
                        forall|j: int|
                            0 <= j < events.len() ==> stamped(
                                #[trigger] events@[j],
                                original[j],
                                self@,
                                topic@,
                                subscription@,
                            ),
                    decreases rev.len(),
                {
                    let e = rev.pop().unwrap();
                    events.push(e);
                }
                Ok(GetEventsResponse { events, offset, limit })
            },
        }
    }

    /// The request that acknowledges event `id` of `subscription` on `topic`.
    pub fn acknowledge_message_request(&self, topic: &str, subscription: &str, id: &str) -> (r:
        Request)
        ensures
            r@ == ack_plan(self@, topic@, subscription@, id@),
    {
        let mut url = self.base_url.clone();
        push_text(&mut url, "/topics/");
        push_text(&mut url, topic);
        push_text(&mut url, "/subscriptions/");
        push_text(&mut url, subscription);
        push_text(&mut url, "/events/");
        push_text(&mut url, id);
        let no_fields: Vec<(String, String)> = Vec::new();
        proof {
            assert(no_fields.deep_view() =~= Seq::empty());
        }
        let body = encode_object(&no_fields);
        self.plan(Method::Post, url, Some(body), Expect::Nothing)
    }

    /// The outcome of an acknowledgement: success only on status 200.
    pub fn acknowledge_result(reply: Reply<()>) -> (r: Result<(), Error>)
        ensures
            r == judged(reply, Success::Exactly(200)),
    {
        judge(reply, Success::Exactly(200))
    }
}

impl Event {
    /// The request that acknowledges this event, or `None` when no client is
    /// bound to it: then acknowledging succeeds with nothing sent.
    pub fn ack_request(&self) -> (r: Option<Request>)
        ensures
            self.client is None <==> r is None,
            self.client matches Some(c) ==> r matches Some(q) && q@ == ack_plan(
                c@,
                self.topic@,
                self.subscription@,
                self.id@,
            ),
    {
        match &self.client {
            Some(c) => Some(
                c.acknowledge_message_request(
                    self.topic.as_str(),
                    self.subscription.as_str(),
                    self.id.as_str(),
                ),
            ),
            None => None,
        }
    }
}

} // verus!
