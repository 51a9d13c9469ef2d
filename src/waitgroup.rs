use vstd::prelude::*;
use crate::client::{
    copy_opt_pairs, opt_time, planned, publish_plan, time_text, ClientView, SailhouseClient,
};
use crate::envelope::{envelope_text, opt_pairs, PublishBody, Timestamp};
use crate::json::{encode_object, json_quoted, object_text, push_text, quote};
use crate::request::{judge, judged, opt_text, Error, Expect, Method, Reply, Request, RequestView, Success};

verus! {

/// Options of a wait group: how long the service keeps the instance open.
#[derive(Clone, Debug, PartialEq, Eq)]
pub struct WaitOptions {
    pub ttl: Option<String>,
}

/// The reply to a wait-group creation.
#[derive(Clone, Debug, PartialEq, Eq)]
pub struct WaitGroupInstanceResponse {
    pub wait_group_instance_id: String,
}

/// One event to publish as part of a wait group, on its own topic.
#[derive(Clone, Debug)]
pub struct WaitEvent {
    pub topic: String,
    /// The payload, as JSON text.
    pub body: String,
    pub metadata: Option<Vec<(String, String)>>,
    pub send_at: Option<Timestamp>,
}

pub struct WaitEventView {
    pub topic: Seq<char>,
    pub body: Seq<char>,
    pub metadata: Option<Seq<(Seq<char>, Seq<char>)>>,
    pub send_at: Option<Seq<char>>,
}

impl View for WaitEvent {
    type V = WaitEventView;

    open spec fn view(&self) -> WaitEventView {
        WaitEventView {
            topic: self.topic@,
            body: self.body@,
            metadata: opt_pairs(self.metadata),
            send_at: opt_time(self.send_at),
        }
    }
}

/// Why a wait group failed, by the step that failed.
#[derive(Clone, Debug, PartialEq, Eq)]
pub enum WaitError {
    /// The instance was not created: nothing was published.
    SetupFailed(Error),
    /// The publish of the event at this position (counted from 0) failed: the
    /// events before it were published, the rest were not, and the instance
    /// was never completed.
    PublishFailed(usize, Error),
    /// Every event was published, but the instance was not marked complete.
    CompletionFailed(Error),
}

/// Where a wait group stands.
#[derive(Clone, Debug)]
pub enum Stage {
    /// The creation request is out.
    Creating,
    /// The publish of event `next` is out.
    Publishing { instance_id: String, next: usize },
    /// The completion request is out.
    Completing { instance_id: String },
    /// The run is over.
    Finished,
}

pub enum StageView {
    Creating,
    Publishing { instance_id: Seq<char>, next: nat },
    Completing { instance_id: Seq<char> },
    Finished,
}

impl View for Stage {
    type V = StageView;

    open spec fn view(&self) -> StageView {
        match self {
            Stage::Creating => StageView::Creating,
            Stage::Publishing { instance_id, next } => StageView::Publishing {
                instance_id: instance_id@,
                next: *next as nat,
            },
            Stage::Completing { instance_id } => StageView::Completing { instance_id: instance_id@ },
            Stage::Finished => StageView::Finished,
        }
    }
}

/// What the sender does next: issue a request, or report the run's result.
#[derive(Debug)]
pub enum WaitStep {
    Send(Request),
    Done(Result<(), WaitError>),
}

pub enum StepView {
    Send(RequestView),
    Done(Result<(), WaitError>),
}

impl View for WaitStep {
    type V = StepView;

    open spec fn view(&self) -> StepView {
        match self {
            WaitStep::Send(r) => StepView::Send(r@),
            WaitStep::Done(res) => StepView::Done(*res),
        }
    }
}

/// One run of the wait-group protocol: create an instance, publish each event
/// in order tagged with the instance, then mark the instance complete.
#[derive(Debug)]
pub struct WaitGroup {
    client: SailhouseClient,
    topic: String,
    ttl: Option<String>,
    events: Vec<WaitEvent>,
    stage: Stage,
}

pub struct WaitGroupView {
    pub client: ClientView,
    pub topic: Seq<char>,
    pub ttl: Option<Seq<char>>,
    pub events: Seq<WaitEventView>,
    pub stage: StageView,
}

impl View for WaitGroup {
    type V = WaitGroupView;

    closed spec fn view(&self) -> WaitGroupView {
        WaitGroupView {
            client: self.client@,
            topic: self.topic@,
            ttl: opt_text(self.ttl),
            events: self.events@.map_values(|e: WaitEvent| e@),
            stage: self.stage@,
        }
    }
}

impl WaitGroupView {
    /// A publish in progress names an event of the group.
    pub open spec fn wf(self) -> bool {
        match self.stage {
            StageView::Publishing { next, .. } => next < self.events.len(),
            _ => true,
        }
    }

    /// A request is out and its reply is awaited.
    pub open spec fn awaiting(self) -> bool {
        !(self.stage is Finished)
    }

    pub open spec fn with_stage(self, stage: StageView) -> WaitGroupView {
        WaitGroupView { stage, ..self }
    }
}

/// The body of a creation request: the group's topic, and its time to live if set.
pub open spec fn create_body(topic: Seq<char>, ttl: Option<Seq<char>>) -> Seq<char> {
    object_text(
        seq![("topic"@, json_quoted(topic))] + match ttl {
            Some(t) => seq![("ttl"@, json_quoted(t))],
            None => Seq::empty(),
        },
    )
}

pub open spec fn create_plan(c: ClientView, topic: Seq<char>, ttl: Option<Seq<char>>) -> RequestView {
    planned(
        c,
        Method::Post,
        c.base_url + "/waitgroups/instances"@,
        Some(create_body(topic, ttl)),
        Expect::InstanceId,
    )
}

/// The publish of one event of a group, on the event's own topic, tagged with the instance.
pub open spec fn event_plan(c: ClientView, e: WaitEventView, instance_id: Seq<char>) -> RequestView {
    publish_plan(c, e.topic, envelope_text(e.body, e.metadata, e.send_at, Some(instance_id)))
}

pub open spec fn completion_plan(c: ClientView, instance_id: Seq<char>) -> RequestView {
    planned(
        c,
        Method::Put,
        c.base_url + "/waitgroups/instances/"@ + instance_id + "/events"@,
        Some(object_text(Seq::empty())),
        Expect::Nothing,
    )
}

/// The publishes of the events from position `start` on, in order.
pub open spec fn publishes_from(v: WaitGroupView, instance_id: Seq<char>, start: nat) -> Seq<RequestView> {
    Seq::new(
        (v.events.len() - start) as nat,
        |i: int| event_plan(v.client, v.events[start + i], instance_id),
    )
}

/// Every request after the creation, in protocol order, when nothing fails.
pub open spec fn plan_after_create(v: WaitGroupView, instance_id: Seq<char>) -> Seq<RequestView> {
    publishes_from(v, instance_id, 0) + seq![completion_plan(v.client, instance_id)]
}

/// What follows once the events before `next` are published.
pub open spec fn continue_from(v: WaitGroupView, instance_id: Seq<char>, next: nat) -> (
    StageView,
    StepView,
) {
    if next < v.events.len() {
        (
            StageView::Publishing { instance_id, next },
            StepView::Send(event_plan(v.client, v.events[next as int], instance_id)),
        )
    } else {
        (StageView::Completing { instance_id }, StepView::Send(completion_plan(v.client, instance_id)))
    }
}

/// One transition: the stage that follows `v`'s on `reply`, and what to do.
pub open spec fn step(v: WaitGroupView, reply: Reply<String>) -> (StageView, StepView) {
    match v.stage {
        StageView::Creating => match judged(reply, Success::Exactly(200)) {
            Err(e) => (StageView::Finished, StepView::Done(Err(WaitError::SetupFailed(e)))),
            Ok(id) => if id@.len() == 0 {
                (
                    StageView::Finished,
                    StepView::Done(Err(WaitError::SetupFailed(Error::EmptyInstanceId))),
                )
            } else {
                continue_from(v, id@, 0)
            },
        },
        StageView::Publishing { instance_id, next } => match judged(
            reply,
            Success::Exactly(201),
        ) {
            Err(e) => (
                StageView::Finished,
                StepView::Done(Err(WaitError::PublishFailed(next as usize, e))),
            ),
            Ok(_) => continue_from(v, instance_id, next + 1),
        },
        StageView::Completing { .. } => match judged(reply, Success::AnyTwoHundred) {
            Err(e) => (StageView::Finished, StepView::Done(Err(WaitError::CompletionFailed(e)))),
            Ok(_) => (StageView::Finished, StepView::Done(Ok(()))),
        },
        StageView::Finished => (StageView::Finished, StepView::Done(Ok(()))),
    }
}

/// The requests issued, and the result if the run ended, when the replies to
/// the requests out from `v` on are `replies`, in order.
pub open spec fn run(v: WaitGroupView, replies: Seq<Reply<String>>) -> (
    Seq<RequestView>,
    Option<Result<(), WaitError>>,
)
    decreases replies.len(),
{
    if replies.len() == 0 || v.stage is Finished {
        (Seq::empty(), None)
    } else {
        match step(v, replies[0]).1 {
            StepView::Send(r) => {
                let rest = run(v.with_stage(step(v, replies[0]).0), replies.drop_first());
                (seq![r] + rest.0, rest.1)
            },
            StepView::Done(res) => (Seq::empty(), Some(res)),
        }
    }
}

impl SailhouseClient {
    /// Starts a wait group on `topic` for `events`: the group, waiting on the
    /// reply to the creation request that comes with it.
    pub fn wait(&self, topic: &str, events: Vec<WaitEvent>, options: Option<WaitOptions>) -> (r: (
        WaitGroup,
        Request,
    ))
        ensures
            r.0@.client == self@,
            r.0@.topic == topic@,
            r.0@.ttl == match options {
                Some(o) => opt_text(o.ttl),
                None => None,
            },
            r.0@.events == events@.map_values(|e: WaitEvent| e@),
            r.0@.stage is Creating,
            r.0@.wf(),
            r.1@ == create_plan(self@, topic@, r.0@.ttl),
    {
        let ttl = match options {
            Some(o) => o.ttl,
            None => None,
        };
        let mut fields: Vec<(String, String)> = Vec::new();
        fields.push(("topic".to_string(), quote(topic)));
        match &ttl {
            Some(t) => {
                fields.push(("ttl".to_string(), quote(t.as_str())));
            },
            None => {},
        }
        proof {
            assert(fields.deep_view() =~= seq![("topic"@, json_quoted(topic@))] + match opt_text(
                ttl,
            ) {
                Some(t) => seq![("ttl"@, json_quoted(t))],
                None => Seq::<(Seq<char>, Seq<char>)>::empty(),
            });
        }
        let body = encode_object(&fields);
        let mut url = self.base_url().to_string();
        push_text(&mut url, "/waitgroups/instances");
        let request = self.plan(Method::Post, url, Some(body), Expect::InstanceId);
        let group = WaitGroup {
            client: self.clone(),
            topic: topic.to_string(),
            ttl,
            events,
            stage: Stage::Creating,
        };
        (group, request)
    }
}

impl WaitGroup {
    /// The run is over.
    pub fn is_finished(&self) -> (r: bool)
        ensures
            r == (self@.stage is Finished),
    {
        match self.stage {
            Stage::Finished => true,
            _ => false,
        }
    }

    fn event_request(&self, i: usize, instance_id: &String) -> (r: Request)
        requires
            i < self@.events.len(),
        ensures
            r@ == event_plan(self@.client, self@.events[i as int], instance_id@),
    {
        let e = &self.events[i];
        let body = PublishBody {
            data: e.body.clone(),
            metadata: copy_opt_pairs(&e.metadata),
            send_at: time_text(&e.send_at),
            wait_group_instance_id: Some(instance_id.clone()),
        };
        self.client.publish_request(e.topic.as_str(), &body)
    }

    fn completion_request(&self, instance_id: &String) -> (r: Request)
        ensures
            r@ == completion_plan(self@.client, instance_id@),
    {
        let mut url = self.client.base_url().to_string();
        push_text(&mut url, "/waitgroups/instances/");
        push_text(&mut url, instance_id.as_str());
        push_text(&mut url, "/events");
        let no_fields: Vec<(String, String)> = Vec::new();
        proof {
            assert(no_fields.deep_view() =~= Seq::empty());
        }
        let body = encode_object(&no_fields);
        self.client.plan(Method::Put, url, Some(body), Expect::Nothing)
    }

    fn continue_from(&mut self, instance_id: String, next: usize) -> (r: WaitStep)
        requires
            old(self)@.wf(),
            next <= old(self)@.events.len(),
        ensures
            (final(self)@.stage, r@) == continue_from(old(self)@, instance_id@, next as nat),
            final(self)@ == old(self)@.with_stage(final(self)@.stage),
    {
        if next < self.events.len() {
            let request = self.event_request(next, &instance_id);
            self.stage = Stage::Publishing { instance_id, next };
            WaitStep::Send(request)
        } else {
            let request = self.completion_request(&instance_id);
            self.stage = Stage::Completing { instance_id };
            WaitStep::Send(request)
        }
    }

    /// Takes the reply to the request that is out, and says what to do next.
    pub fn advance(&mut self, reply: Reply<String>) -> (r: WaitStep)
        requires
            old(self)@.wf(),
            old(self)@.awaiting(),
        ensures
            final(self)@ == old(self)@.with_stage(step(old(self)@, reply).0),
            r@ == step(old(self)@, reply).1,
            final(self)@.wf(),
    {
        let mut stage = Stage::Finished;
        std::mem::swap(&mut stage, &mut self.stage);
        match stage {
            Stage::Creating => match judge(reply, Success::Exactly(200)) {
                Err(e) => WaitStep::Done(Err(WaitError::SetupFailed(e))),
                Ok(id) => {
                    if id.as_str().is_empty() {
                        WaitStep::Done(Err(WaitError::SetupFailed(Error::EmptyInstanceId)))
                    } else {
                        self.continue_from(id, 0)
                    }
                },
            },
            Stage::Publishing { instance_id, next } => match judge(reply, Success::Exactly(201)) {
                Err(e) => WaitStep::Done(Err(WaitError::PublishFailed(next, e))),
                Ok(_) => {
                    let n = self.events.len();
                    proof {
                        assert(old(self)@.stage == stage@);
                        assert(next < n);
                    }
                    self.continue_from(instance_id, next + 1)
                },
            },
            Stage::Completing { .. } => match judge(reply, Success::AnyTwoHundred) {
                Err(e) => WaitStep::Done(Err(WaitError::CompletionFailed(e))),
                Ok(_) => WaitStep::Done(Ok(())),
            },
            Stage::Finished => WaitStep::Done(Ok(())),
        }
    }
}

} // verus!
