use vstd::prelude::*;
use crate::envelope::envelope_fields;
use crate::json::{json_quoted, string_map_text};
use crate::request::{judged, Error, Reply, Success};
use crate::waitgroup::{
    completion_plan, continue_from, plan_after_create, publishes_from, run, StageView, WaitError,
    WaitGroupView,
};

verus! {

/// Some field of `fields` has key `key`.
pub open spec fn has_key(fields: Seq<(Seq<char>, Seq<char>)>, key: Seq<char>) -> bool {
    exists|i: int| 0 <= i < fields.len() && (#[trigger] fields[i]).0 == key
}

/// Some field of `fields` is `key` with `value`.
pub open spec fn has_field(fields: Seq<(Seq<char>, Seq<char>)>, key: Seq<char>, value: Seq<char>) -> bool {
    exists|i: int| 0 <= i < fields.len() && #[trigger] fields[i] == (key, value)
}

/// A publish envelope holds the data first, and besides it exactly the optional
/// fields that are set, each with its value written as JSON; a field that is
/// not set does not appear at all, so none is ever written as `null`.
pub proof fn lemma_envelope_fields(
    data: Seq<char>,
    metadata: Option<Seq<(Seq<char>, Seq<char>)>>,
    send_at: Option<Seq<char>>,
    wait_group_instance_id: Option<Seq<char>>,
)
    ensures
        envelope_fields(data, metadata, send_at, wait_group_instance_id)[0] == ("data"@, data),
        forall|i: int|
            1 <= i < envelope_fields(data, metadata, send_at, wait_group_instance_id).len()
                ==> (#[trigger] envelope_fields(data, metadata, send_at, wait_group_instance_id)[i]).0
                != "data"@,
        forall|i: int|
            0 <= i < envelope_fields(data, metadata, send_at, wait_group_instance_id).len() ==> {
                let k = (#[trigger] envelope_fields(data, metadata, send_at, wait_group_instance_id)[i]).0;
                k == "data"@ || k == "metadata"@ || k == "send_at"@ || k == "wait_group_instance_id"@
            },
        has_key(envelope_fields(data, metadata, send_at, wait_group_instance_id), "metadata"@)
            <==> metadata is Some,
        metadata matches Some(m) ==> has_field(
            envelope_fields(data, metadata, send_at, wait_group_instance_id),
            "metadata"@,
            string_map_text(m),
        ),
        has_key(envelope_fields(data, metadata, send_at, wait_group_instance_id), "send_at"@)
            <==> send_at is Some,
        send_at matches Some(t) ==> has_field(
            envelope_fields(data, metadata, send_at, wait_group_instance_id),
            "send_at"@,
            json_quoted(t),
        ),
        has_key(
            envelope_fields(data, metadata, send_at, wait_group_instance_id),
            "wait_group_instance_id"@,
        ) <==> wait_group_instance_id is Some,
        wait_group_instance_id matches Some(w) ==> has_field(
            envelope_fields(data, metadata, send_at, wait_group_instance_id),
            "wait_group_instance_id"@,
            json_quoted(w),
        ),
{
    reveal_strlit("data");
    reveal_strlit("metadata");
    reveal_strlit("send_at");
    reveal_strlit("wait_group_instance_id");
    let f = envelope_fields(data, metadata, send_at, wait_group_instance_id);
    let m: int = if metadata is Some { 1 } else { 0 };
    let s: int = if send_at is Some { 1 } else { 0 };
    let w: int = if wait_group_instance_id is Some { 1 } else { 0 };
    assert(f.len() == 1 + m + s + w);
    if let Some(x) = metadata {
        assert(f[1] == ("metadata"@, string_map_text(x)));
    }
    if let Some(x) = send_at {
        assert(f[1 + m] == ("send_at"@, json_quoted(x)));
    }
    if let Some(x) = wait_group_instance_id {
        assert(f[1 + m + s] == ("wait_group_instance_id"@, json_quoted(x)));
    }
    assert forall|i: int| 0 <= i < f.len() implies {
        ||| (i == 0 && f[i].0 == "data"@)
        ||| (m == 1 && i == 1 && f[i].0 == "metadata"@)
        ||| (s == 1 && i == 1 + m && f[i].0 == "send_at"@)
        ||| (w == 1 && i == 1 + m + s && f[i].0 == "wait_group_instance_id"@)
    } by {}
    assert("data"@.len() == 4);
    assert("metadata"@.len() == 8);
    assert("send_at"@.len() == 7);
    assert("wait_group_instance_id"@.len() == 22);
}

/// `reply` answers a creation with the non-empty instance identifier `id`.
pub open spec fn created(reply: Reply<String>, id: Seq<char>) -> bool {
    &&& judged(reply, Success::Exactly(200)) matches Ok(s) && s@ == id
    &&& id.len() > 0
}

/// `reply` accepts a publish.
pub open spec fn published(reply: Reply<String>) -> bool {
    judged(reply, Success::Exactly(201)) is Ok
}

/// `reply` accepts a completion.
pub open spec fn completed(reply: Reply<String>) -> bool {
    judged(reply, Success::AnyTwoHundred) is Ok
}

/// From a completion on, nothing more is sent.
proof fn lemma_completing_ends(v: WaitGroupView, replies: Seq<Reply<String>>)
    requires
        v.stage is Completing,
    ensures
        run(v, replies).0.len() == 0,
        replies.len() > 0 && completed(replies[0]) ==> run(v, replies).1 == Some(
            Ok::<(), WaitError>(()),
        ),
{
    reveal_with_fuel(run, 2);
}

proof fn lemma_publishing_succeeds(v: WaitGroupView, id: Seq<char>, next: nat, replies: Seq<Reply<String>>)
    requires
        v.stage == (StageView::Publishing { instance_id: id, next }),
        next < v.events.len(),
        replies.len() == v.events.len() - next + 1,
        forall|j: int| 0 <= j < v.events.len() - next ==> published(#[trigger] replies[j]),
        completed(replies[v.events.len() - next]),
    ensures
        run(v, replies) == (
            publishes_from(v, id, next + 1) + seq![completion_plan(v.client, id)],
            Some(Ok::<(), WaitError>(())),
        ),
    decreases v.events.len() - next,
{
    assert(published(replies[0]));
    let rest = replies.drop_first();
    let v2 = v.with_stage(continue_from(v, id, next + 1).0);
    if next + 1 < v.events.len() {
        assert forall|j: int| 0 <= j < v.events.len() - (next + 1) implies published(
            #[trigger] rest[j],
        ) by {
            assert(published(replies[j + 1]));
        }
        assert(rest[v.events.len() - (next + 1)] == replies[v.events.len() - next]);
        lemma_publishing_succeeds(v2, id, next + 1, rest);
        assert(publishes_from(v2, id, next + 2) == publishes_from(v, id, next + 2));
        assert(seq![continue_from(v, id, next + 1).1->Send_0] + publishes_from(v, id, next + 2)
            =~= publishes_from(v, id, next + 1));
        assert(seq![continue_from(v, id, next + 1).1->Send_0] + (publishes_from(v, id, next + 2)
            + seq![completion_plan(v.client, id)]) =~= publishes_from(v, id, next + 1)
            + seq![completion_plan(v.client, id)]);
    } else {
        assert(rest[0] == replies[1]);
        lemma_completing_ends(v2, rest);
        assert(publishes_from(v, id, next + 1) =~= Seq::empty());
        assert(seq![completion_plan(v.client, id)] =~= publishes_from(v, id, next + 1)
            + seq![completion_plan(v.client, id)]);
    }
}

proof fn lemma_publishing_fails(
    v: WaitGroupView,
    id: Seq<char>,
    next: nat,
    j: nat,
    replies: Seq<Reply<String>>,
    e: Error,
)
    requires
        v.stage == (StageView::Publishing { instance_id: id, next }),
        next + j < v.events.len(),
        replies.len() > j,
        forall|i: int| 0 <= i < j ==> published(#[trigger] replies[i]),
        judged(replies[j as int], Success::Exactly(201)) == Err::<String, Error>(e),
    ensures
        run(v, replies) == (
            publishes_from(v, id, next + 1).take(j as int),
            Some(Err::<(), WaitError>(WaitError::PublishFailed((next + j) as usize, e))),
        ),
    decreases j,
{
    if j == 0 {
        assert(publishes_from(v, id, next + 1).take(0) =~= Seq::empty());
    } else {
        assert(published(replies[0]));
        let rest = replies.drop_first();
        let v2 = v.with_stage(continue_from(v, id, next + 1).0);
        assert forall|i: int| 0 <= i < j - 1 implies published(#[trigger] rest[i]) by {
            assert(published(replies[i + 1]));
        }
        assert(rest[j - 1] == replies[j as int]);
        lemma_publishing_fails(v2, id, next + 1, (j - 1) as nat, rest, e);
        assert(publishes_from(v2, id, next + 2) == publishes_from(v, id, next + 2));
        assert(seq![continue_from(v, id, next + 1).1->Send_0] + publishes_from(v, id, next + 2).take(
            j - 1,
        ) =~= publishes_from(v, id, next + 1).take(j as int));
    }
}

proof fn lemma_publishing_prefix(v: WaitGroupView, id: Seq<char>, next: nat, replies: Seq<Reply<String>>)
    requires
        v.stage == (StageView::Publishing { instance_id: id, next }),
        next < v.events.len(),
    ensures
        run(v, replies).0.len() <= v.events.len() - next,
        run(v, replies).0 =~= (publishes_from(v, id, next + 1) + seq![completion_plan(v.client, id)]).take(
            run(v, replies).0.len() as int,
        ),
    decreases replies.len(),
{
    let plan = publishes_from(v, id, next + 1) + seq![completion_plan(v.client, id)];
    if replies.len() == 0 || !published(replies[0]) {
        assert(plan.take(0) =~= Seq::empty());
    } else {
        let rest = replies.drop_first();
        let v2 = v.with_stage(continue_from(v, id, next + 1).0);
        if next + 1 < v.events.len() {
            lemma_publishing_prefix(v2, id, next + 1, rest);
            assert(publishes_from(v2, id, next + 2) == publishes_from(v, id, next + 2));
            let tail = publishes_from(v, id, next + 2) + seq![completion_plan(v.client, id)];
            assert(plan =~= seq![continue_from(v, id, next + 1).1->Send_0] + tail);
            let k = run(v2, rest).0.len();
            assert(run(v, replies).0 =~= seq![continue_from(v, id, next + 1).1->Send_0] + tail.take(
                k as int,
            ));
            assert(plan.take((k + 1) as int) =~= seq![continue_from(v, id, next + 1).1->Send_0] + tail.take(
                k as int,
            ));
        } else {
            lemma_completing_ends(v2, rest);
            assert(publishes_from(v, id, next + 1) =~= Seq::empty());
            assert(run(v, replies).0 =~= plan.take(1));
        }
    }
}

/// A wait group whose creation is answered with identifier `id`, whose publishes
/// are all accepted and whose completion is accepted, publishes each event once,
/// in input order, on the event's own topic and tagged with `id`; then completes
/// the instance `id`, and succeeds. With no events, that is the completion alone.
pub proof fn lemma_wait_succeeds(v: WaitGroupView, id: Seq<char>, replies: Seq<Reply<String>>)
    requires
        v.stage is Creating,
        replies.len() == v.events.len() + 2,
        created(replies[0], id),
        forall|j: int| 1 <= j <= v.events.len() ==> published(#[trigger] replies[j]),
        completed(replies[(v.events.len() + 1) as int]),
    ensures
        run(v, replies) == (plan_after_create(v, id), Some(Ok::<(), WaitError>(()))),
{
    let rest = replies.drop_first();
    let v1 = v.with_stage(continue_from(v, id, 0).0);
    if v.events.len() > 0 {
        assert forall|j: int| 0 <= j < v.events.len() - 1 implies published(#[trigger] rest[j]) by {
            assert(published(replies[j + 1]));
        }
        assert(rest[v.events.len() - 1] == replies[v.events.len() as int]);
        assert(published(rest[v.events.len() - 1]));
        assert forall|j: int| 0 <= j < v.events.len() - 0 implies published(#[trigger] rest[j]) by {
            assert(published(replies[j + 1]));
        }
        lemma_publishing_succeeds(v1, id, 0, rest);
        assert(publishes_from(v1, id, 1) == publishes_from(v, id, 1));
        assert(seq![continue_from(v, id, 0).1->Send_0] + publishes_from(v, id, 1) =~= publishes_from(
            v,
            id,
            0,
        ));
        assert(seq![continue_from(v, id, 0).1->Send_0] + (publishes_from(v, id, 1) + seq![
            completion_plan(v.client, id),
        ]) =~= plan_after_create(v, id));
    } else {
        assert(rest[0] == replies[1]);
        lemma_completing_ends(v1, rest);
        assert(publishes_from(v, id, 0) =~= Seq::empty());
        assert(seq![completion_plan(v.client, id)] =~= plan_after_create(v, id));
    }
}

/// Whatever the replies, once the creation is answered with `id` the requests
/// sent are a prefix of the plan: the publishes of the events in input order,
/// each tagged with `id`, then the completion of `id`. With no events, at most
/// the completion is sent.
pub proof fn lemma_wait_follows_plan(v: WaitGroupView, id: Seq<char>, replies: Seq<Reply<String>>)
    requires
        v.stage is Creating,
        replies.len() > 0,
        created(replies[0], id),
    ensures
        run(v, replies).0.len() <= v.events.len() + 1,
        run(v, replies).0 == plan_after_create(v, id).take(run(v, replies).0.len() as int),
{
    let rest = replies.drop_first();
    let v1 = v.with_stage(continue_from(v, id, 0).0);
    let plan = plan_after_create(v, id);
    if v.events.len() > 0 {
        lemma_publishing_prefix(v1, id, 0, rest);
        assert(publishes_from(v1, id, 1) == publishes_from(v, id, 1));
        let tail = publishes_from(v, id, 1) + seq![completion_plan(v.client, id)];
        assert(plan =~= seq![continue_from(v, id, 0).1->Send_0] + tail);
        let k = run(v1, rest).0.len();
        assert(run(v, replies).0 =~= seq![continue_from(v, id, 0).1->Send_0] + tail.take(k as int));
        assert(plan.take((k + 1) as int) =~= seq![continue_from(v, id, 0).1->Send_0] + tail.take(k as int));
    } else {
        lemma_completing_ends(v1, rest);
        assert(publishes_from(v, id, 0) =~= Seq::empty());
        assert(run(v, replies).0 =~= plan.take(1));
    }
}

/// A wait group with no events, once its creation is answered with `id`,
/// sends exactly one request, the completion of `id`, and no publish, whatever
/// the completion's reply.
pub proof fn lemma_wait_without_events(v: WaitGroupView, id: Seq<char>, replies: Seq<Reply<String>>)
    requires
        v.stage is Creating,
        v.events.len() == 0,
        replies.len() >= 2,
        created(replies[0], id),
    ensures
        run(v, replies).0 == seq![completion_plan(v.client, id)],
{
    let rest = replies.drop_first();
    lemma_completing_ends(v.with_stage(continue_from(v, id, 0).0), rest);
    assert(run(v, replies).0 =~= seq![completion_plan(v.client, id)]);
}

/// A wait group whose creation fails, or is answered with an empty identifier,
/// sends nothing more (no publish, no completion) and fails at setup.
pub proof fn lemma_wait_setup_fails(v: WaitGroupView, replies: Seq<Reply<String>>)
    requires
        v.stage is Creating,
        replies.len() > 0,
        !(judged(replies[0], Success::Exactly(200)) matches Ok(s) && s@.len() > 0),
    ensures
        run(v, replies).0.len() == 0,
        run(v, replies).1 matches Some(Err(WaitError::SetupFailed(_))),
{
}

/// A wait group whose creation is answered with `id` and whose `k`-th publish
/// (counted from 1) fails with `e`, the earlier ones accepted, sends exactly
/// `k` publishes, those of the first `k` events in order, never the completion,
/// and fails at position `k - 1` with `e`.
pub proof fn lemma_wait_publish_fails(
    v: WaitGroupView,
    id: Seq<char>,
    k: nat,
    e: Error,
    replies: Seq<Reply<String>>,
)
    requires
        v.stage is Creating,
        1 <= k <= v.events.len(),
        replies.len() > k,
        created(replies[0], id),
        forall|j: int| 1 <= j < k ==> published(#[trigger] replies[j]),
        judged(replies[k as int], Success::Exactly(201)) == Err::<String, Error>(e),
    ensures
        run(v, replies) == (
            publishes_from(v, id, 0).take(k as int),
            Some(Err::<(), WaitError>(WaitError::PublishFailed((k - 1) as usize, e))),
        ),
{
    let rest = replies.drop_first();
    let v1 = v.with_stage(continue_from(v, id, 0).0);
    assert forall|i: int| 0 <= i < k - 1 implies published(#[trigger] rest[i]) by {
        assert(published(replies[i + 1]));
    }
    assert(rest[k - 1] == replies[k as int]);
    lemma_publishing_fails(v1, id, 0, (k - 1) as nat, rest, e);
    assert(publishes_from(v1, id, 1) == publishes_from(v, id, 1));
    assert(seq![continue_from(v, id, 0).1->Send_0] + publishes_from(v, id, 1).take(k - 1)
        =~= publishes_from(v, id, 0).take(k as int));
}

} // verus!
