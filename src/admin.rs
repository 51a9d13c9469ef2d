use vstd::prelude::*;
use crate::client::{planned, ClientView, SailhouseClient};
use crate::json::{encode_object, json_quoted, object_text, push_text, quote};
use crate::request::{judge, judged, Error, Expect, Method, Reply, Request, RequestView, Success};

verus! {

/// The outcome of a registration: "created", "updated" or "none".
#[derive(Clone, Debug, PartialEq, Eq)]
pub struct RegisterResult {
    pub outcome: String,
}

/// Delivers only events whose value at `path` is `value`.
#[derive(Clone, Debug, PartialEq, Eq)]
pub struct FilterOption {
    pub path: String,
    pub value: String,
}

pub open spec fn filter_text(f: FilterOption) -> Seq<char> {
    object_text(seq![("path"@, json_quoted(f.path@)), ("value"@, json_quoted(f.value@))])
}

/// The body of a push-subscription registration; the filter only when given.
pub open spec fn register_body(endpoint: Seq<char>, filter: Option<FilterOption>) -> Seq<char> {
    object_text(
        seq![("type"@, json_quoted("push"@)), ("endpoint"@, json_quoted(endpoint))] + match filter {
            Some(f) => seq![("filter"@, filter_text(f))],
            None => Seq::empty(),
        },
    )
}

pub open spec fn register_plan(
    c: ClientView,
    topic: Seq<char>,
    subscription: Seq<char>,
    endpoint: Seq<char>,
    filter: Option<FilterOption>,
) -> RequestView {
    planned(
        c,
        Method::Put,
        c.base_url + "/topics/"@ + topic + "/subscriptions/"@ + subscription,
        Some(register_body(endpoint, filter)),
        Expect::Outcome,
    )
}

/// Administration of subscriptions.
#[derive(Clone, Debug)]
pub struct AdminClient {
    client: SailhouseClient,
}

impl AdminClient {
    pub closed spec fn client_spec(&self) -> ClientView {
        self.client@
    }

    pub fn new(client: SailhouseClient) -> (r: Self)
        ensures
            r.client_spec() == client@,
    {
        AdminClient { client }
    }

    /// The request that registers `subscription` on `topic` as a push
    /// subscription delivering to `endpoint`.
    pub fn register_push_subscription_request(
        &self,
        topic: &str,
        subscription: &str,
        endpoint: &str,
        filter: Option<FilterOption>,
    ) -> (r: Request)
        ensures
            r@ == register_plan(self.client_spec(), topic@, subscription@, endpoint@, filter),
    {
        let mut fields: Vec<(String, String)> = Vec::new();
        fields.push(("type".to_string(), quote("push")));
        fields.push(("endpoint".to_string(), quote(endpoint)));
        match &filter {
            Some(f) => {
                let mut inner: Vec<(String, String)> = Vec::new();
                inner.push(("path".to_string(), quote(f.path.as_str())));
                inner.push(("value".to_string(), quote(f.value.as_str())));
                proof {
                    assert(inner.deep_view() =~= seq![
                        ("path"@, json_quoted(f.path@)),
                        ("value"@, json_quoted(f.value@)),
                    ]);
                }
                fields.push(("filter".to_string(), encode_object(&inner)));
            },
            None => {},
        }
        proof {
            assert(fields.deep_view() =~= seq![
                ("type"@, json_quoted("push"@)),
                ("endpoint"@, json_quoted(endpoint@)),
            ] + match filter {
                Some(f) => seq![("filter"@, filter_text(f))],
                None => Seq::<(Seq<char>, Seq<char>)>::empty(),
            });
        }
        let body = encode_object(&fields);
        let mut url = self.client.base_url().to_string();
        push_text(&mut url, "/topics/");
        push_text(&mut url, topic);
        push_text(&mut url, "/subscriptions/");
        push_text(&mut url, subscription);
        self.client.plan(Method::Put, url, Some(body), Expect::Outcome)
    }

    /// The outcome of a registration: whatever the status, the decoded outcome.
    pub fn register_result(reply: Reply<RegisterResult>) -> (r: Result<RegisterResult, Error>)
        ensures
            r == judged(reply, Success::AnyStatus),
    {
        judge(reply, Success::AnyStatus)
    }
}

} // verus!
