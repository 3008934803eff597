//! What holds of every dispatch, whatever the transport, the serialiser, the codec and the
//! worker make of it.

use vstd::prelude::*;

use crate::dispatch::{DispatchEventView, DispatchView, EffectView, StageView};
use crate::response::StreamUse;
use crate::wire::RequestType;

verus! {

/// Where a dispatch stands after `events`, and everything it has asked for on the way.
pub open spec fn run<E>(start: DispatchView, events: Seq<DispatchEventView<E>>) -> (
    DispatchView,
    Seq<EffectView<E>>,
)
    decreases events.len(),
{
    if events.len() == 0 {
        (start, DispatchView::start_effects::<E>(start.request_type))
    } else {
        let before = run(start, events.drop_last());
        let step = before.0.next(events.last());
        (step.0, before.1 + step.1)
    }
}

/// Each of `events` is one that the dispatch waited for when it came.
pub open spec fn possible<E>(start: DispatchView, events: Seq<DispatchEventView<E>>) -> bool
    decreases events.len(),
{
    events.len() > 0 ==> {
        &&& possible(start, events.drop_last())
        &&& run(start, events.drop_last()).0.expects(events.last())
    }
}

/// `start` is the state of a dispatch that has just been started.
pub open spec fn is_start(start: DispatchView) -> bool {
    &&& start.inflight
    &&& start.cancel is None
    &&& start.stage is Registering
}

/// The effects that the laws below count.
pub enum Kind {
    Increment,
    Decrement,
    Cancel,
    Send,
    Fail,
    Deliver,
    Other,
}

pub open spec fn kind_of<E>(effect: EffectView<E>) -> Kind {
    match effect {
        EffectView::IncrementInflight => Kind::Increment,
        EffectView::DecrementInflight => Kind::Decrement,
        EffectView::CancelNow(_) => Kind::Cancel,
        EffectView::CancelDetached(_) => Kind::Cancel,
        EffectView::Send { .. } => Kind::Send,
        EffectView::Fail(_) => Kind::Fail,
        EffectView::Deliver { .. } => Kind::Deliver,
        _ => Kind::Other,
    }
}

/// How many effects of one kind a list holds.
pub open spec fn count<E>(effects: Seq<EffectView<E>>, kind: Kind) -> nat
    decreases effects.len(),
{
    if effects.len() == 0 {
        0
    } else {
        count(effects.drop_last(), kind) + if kind_of(effects.last()) == kind {
            1nat
        } else {
            0nat
        }
    }
}

broadcast proof fn lemma_count_none<E>(kind: Kind)
    ensures
        #[trigger] count(Seq::<EffectView<E>>::empty(), kind) == 0,
{
}

broadcast proof fn lemma_count_push<E>(
    effects: Seq<EffectView<E>>,
    effect: EffectView<E>,
    kind: Kind,
)
    ensures
        #[trigger] count(effects.push(effect), kind) == count(effects, kind) + if kind_of(effect)
            == kind {
            1nat
        } else {
            0nat
        },
{
    assert(effects.push(effect).drop_last() =~= effects);
}

broadcast proof fn lemma_count_add<E>(a: Seq<EffectView<E>>, b: Seq<EffectView<E>>, kind: Kind)
    ensures
        #[trigger] count(a + b, kind) == count(a, kind) + count(b, kind),
    decreases b.len(),
{
    if b.len() == 0 {
        assert(a + b =~= a);
    } else {
        assert((a + b).drop_last() =~= a + b.drop_last());
        lemma_count_add(a, b.drop_last(), kind);
    }
}

/// What a dispatch holds, stage by stage.
spec fn holds_as_staged(s: DispatchView) -> bool {
    match s.stage {
        StageView::Registering => s.inflight && s.cancel is None,
        StageView::Associating { .. } => s.inflight && s.cancel is None,
        StageView::Cancelling => s.inflight && s.cancel is None,
        StageView::Finished => !s.inflight && s.cancel is None,
        _ => s.inflight && s.cancel is Some && s.cancel->0.armed,
    }
}

/// Whether the request has been handed to the transport by now.
spec fn has_sent(s: DispatchView) -> bool {
    s.stage is Sending || s.stage is AwaitingRequestStream || s.stage is AwaitingResponseStream
}

spec fn ledger<E>(s: DispatchView, log: Seq<EffectView<E>>) -> bool {
    &&& holds_as_staged(s)
    &&& count(log, Kind::Increment) == 1
    &&& count(log, Kind::Decrement) == count(log, Kind::Fail)
    &&& count(log, Kind::Cancel) == count(log, Kind::Fail) + if s.stage is Cancelling {
        1nat
    } else {
        0nat
    }
    &&& s.stage is Finished ==> count(log, Kind::Fail) + count(log, Kind::Deliver) == 1
    &&& !(s.stage is Finished) ==> count(log, Kind::Fail) + count(log, Kind::Deliver) == 0
    &&& s.stage is Finished ==> count(log, Kind::Send) <= 1
    &&& !(s.stage is Finished) ==> count(log, Kind::Send) == if has_sent(s) {
        1nat
    } else {
        0nat
    }
    &&& count(log, Kind::Deliver) == 1 ==> count(log, Kind::Send) == 1
}

proof fn lemma_ledger_step<E>(
    s: DispatchView,
    log: Seq<EffectView<E>>,
    event: DispatchEventView<E>,
)
    requires
        ledger(s, log),
        s.expects(event),
    ensures
        ledger(s.next(event).0, log + s.next(event).1),
{
    broadcast use {lemma_count_none, lemma_count_push, lemma_count_add};

    let after = s.next(event);
    assert(holds_as_staged(after.0));
}

proof fn lemma_ledger<E>(start: DispatchView, events: Seq<DispatchEventView<E>>)
    requires
        is_start(start),
        possible(start, events),
    ensures
        ledger(run(start, events).0, run(start, events).1),
    decreases events.len(),
{
    if events.len() == 0 {
        broadcast use {lemma_count_none, lemma_count_push};

    } else {
        lemma_ledger(start, events.drop_last());
        let before = run(start, events.drop_last());
        lemma_ledger_step(before.0, before.1, events.last());
    }
}

/// Every dispatch is counted in the inflight gauge once. It is taken out once if it fails,
/// and not at all if it delivers: then the response stream answers for it. A dispatch that
/// has ended has failed or delivered, once; one that has not has done neither.
pub proof fn law_gauge_is_balanced<E>(start: DispatchView, events: Seq<DispatchEventView<E>>)
    requires
        is_start(start),
        possible(start, events),
    ensures
        count(run(start, events).1, Kind::Increment) == 1,
        count(run(start, events).1, Kind::Decrement) == count(run(start, events).1, Kind::Fail),
        count(run(start, events).1, Kind::Fail) + count(run(start, events).1, Kind::Deliver) == (
        if run(start, events).0.stage is Finished {
            1int
        } else {
            0int
        }),
{
    lemma_ledger(start, events);
}

/// Wherever a dispatch is dropped, the gauge comes out right: it has gone down as often as
/// it has gone up, but for a dispatch that has delivered. Dropping one that has ended does
/// nothing.
pub proof fn law_dropped_dispatch_is_balanced<E>(
    start: DispatchView,
    events: Seq<DispatchEventView<E>>,
)
    requires
        is_start(start),
        possible(start, events),
    ensures
        ({
            let at = run(start, events);
            let total = at.1 + at.0.release::<E>();
            count(total, Kind::Increment) == count(total, Kind::Decrement) + count(
                total,
                Kind::Deliver,
            )
        }),
        run(start, events).0.stage is Finished ==> run(start, events).0.release::<E>().len() == 0,
{
    broadcast use {lemma_count_none, lemma_count_push, lemma_count_add};

    lemma_ledger(start, events);
}

/// Whether `log` ends in a delivery, and the delivery hands a unit of the gauge over.
pub open spec fn hands_over<E>(log: Seq<EffectView<E>>) -> bool {
    log.len() > 0 && log.last() == (EffectView::<E>::Deliver { inflight: true })
}

/// Where the gauge stands after `log`, having stood at `before`.
pub open spec fn gauge<E>(before: int, log: Seq<EffectView<E>>) -> int {
    before + count(log, Kind::Increment) - count(log, Kind::Decrement)
}

proof fn lemma_delivery_hands_over<E>(start: DispatchView, events: Seq<DispatchEventView<E>>)
    requires
        is_start(start),
        possible(start, events),
    ensures
        hands_over(run(start, events).1) <==> count(run(start, events).1, Kind::Deliver) == 1,
{
    broadcast use {lemma_count_none, lemma_count_push, lemma_count_add};

    if events.len() > 0 {
        lemma_ledger(start, events.drop_last());
        let before = run(start, events.drop_last());
        let step = before.0.next(events.last());
        assert(run(start, events).1.last() == step.1.last());
    }
}

/// A call that fails leaves the gauge as it was. One that succeeds leaves it one up and
/// hands that unit to the stream it delivers. It stays one up for as long as the stream
/// lives, however much of it is read, and is back where it was once the stream is dropped.
/// One that is dropped half-way is back at once. In each case the gauge has then gone down
/// as often as up.
pub proof fn law_whole_request_is_balanced<E>(
    start: DispatchView,
    events: Seq<DispatchEventView<E>>,
    uses: Seq<StreamUse>,
    before: int,
)
    requires
        is_start(start),
        possible(start, events),
    ensures
        ({
            let at = run(start, events);
            let total = at.1 + at.0.release::<E>();
            let delivered = count(at.1, Kind::Deliver) == 1;
            let given_back = crate::response::given_back(hands_over(at.1), uses);
            &&& count(at.1, Kind::Fail) == 1 ==> gauge(before, at.1) == before
            &&& delivered ==> gauge(before, at.1) == before + 1
            &&& delivered <==> hands_over(at.1)
            &&& delivered && !uses.contains(StreamUse::Drop) ==> gauge(before, total) - given_back
                == before + 1
            &&& !delivered || uses.contains(StreamUse::Drop) ==> {
                &&& gauge(before, total) - given_back == before
                &&& count(total, Kind::Increment) == count(total, Kind::Decrement) + given_back
            }
        }),
{
    lemma_ledger(start, events);
    lemma_delivery_hands_over(start, events);
    law_dropped_dispatch_is_balanced(start, events);
    crate::response::law_stream_gives_back_once(hands_over(run(start, events).1), uses);
    broadcast use {lemma_count_none, lemma_count_push, lemma_count_add};

}

/// The cancellations that the registration reported by `event` calls for.
pub open spec fn registered_plan<E>(event: DispatchEventView<E>) -> Seq<
    crate::guards::CancellationView,
> {
    crate::guards::cancellations(
        event->Registered_recv->0.subject,
        match event->Registered_send {
            Some(half) => half.subject,
            None => None,
        },
    )
}

/// If `effect` cancels, it cancels what `plan` says.
pub open spec fn cancels_only<E>(
    effect: EffectView<E>,
    plan: Seq<crate::guards::CancellationView>,
) -> bool {
    match effect {
        EffectView::CancelNow(p) => p == plan,
        EffectView::CancelDetached(p) => p == plan,
        _ => true,
    }
}

spec fn knows_plan(s: DispatchView, plan: Seq<crate::guards::CancellationView>) -> bool {
    &&& !(s.stage is Registering)
    &&& s.stage is Associating ==> crate::guards::cancellations(
        s.stage->recv.subject,
        match s.stage->send {
            Some(half) => half.subject,
            None => None,
        },
    ) == plan
    &&& s.cancel is Some ==> s.cancel->0.on_drop() == plan
}

proof fn lemma_plan<E>(start: DispatchView, events: Seq<DispatchEventView<E>>)
    requires
        is_start(start),
        possible(start, events),
        events.len() > 0,
    ensures
        events[0] is Registered,
        knows_plan(run(start, events).0, registered_plan(events[0])),
        forall|i: int|
            0 <= i < run(start, events).1.len() ==> cancels_only(
                #[trigger] run(start, events).1[i],
                registered_plan(events[0]),
            ),
    decreases events.len(),
{
    lemma_ledger(start, events.drop_last());
    if events.len() == 1 {
        assert(events.drop_last() =~= seq![]);
        assert(events.last() == events[0]);
    } else {
        lemma_plan(start, events.drop_last());
        assert(events.drop_last()[0] == events[0]);
    }
}

/// The registered streams of a dispatch that fails, or is about to because its instance has
/// been removed, are cancelled, once, both halves of them; those of any other are not.
/// Dropping a dispatch whose streams are guarded cancels the same.
pub proof fn law_failure_cancels_both_halves<E>(
    start: DispatchView,
    events: Seq<DispatchEventView<E>>,
)
    requires
        is_start(start),
        possible(start, events),
        events.len() > 0,
    ensures
        events[0] is Registered,
        count(run(start, events).1, Kind::Cancel) == count(run(start, events).1, Kind::Fail) + (
        if run(start, events).0.stage is Cancelling {
            1nat
        } else {
            0nat
        }),
        forall|i: int|
            0 <= i < run(start, events).1.len() ==> cancels_only(
                #[trigger] run(start, events).1[i],
                registered_plan(events[0]),
            ),
        run(start, events).0.cancel is Some ==> run(start, events).0.release::<E>()[0]
            == EffectView::<E>::CancelDetached(registered_plan(events[0])),
{
    lemma_ledger(start, events);
    lemma_plan(start, events);
}

/// A request that is addressed to an instance, and whose streams can be named, has them
/// tied to the instance before anything else is done.
pub proof fn law_addressed_request_is_associated_first<E>(
    start: DispatchView,
    events: Seq<DispatchEventView<E>>,
)
    requires
        is_start(start),
        possible(start, events),
        events.len() > 1,
        start.instance is Some,
        events[0]->Registered_recv->0.subject is Some,
    ensures
        events[0] is Registered,
        events[1] is Associated,
        run(start, events.take(1)).1 == run(start, events.take(0)).1.push(
            EffectView::Associate {
                recv_subject: events[0]->Registered_recv->0.subject->0,
                send_subject: match events[0]->Registered_send {
                    Some(half) => half.subject,
                    None => None,
                },
                instance: crate::instance::EndpointInstanceIdView {
                    endpoint: start.instance->0.endpoint,
                    instance_id: start.instance->0.instance_id,
                },
            },
        ),
    decreases events.len(),
{
    if events.len() == 2 {
        let first = events.drop_last();
        lemma_plan(start, first);
        assert(first =~= events.take(1));
        assert(first.drop_last() =~= events.take(0));
        assert(events.take(0) =~= seq![]);
        assert(first.last() == events[0]);
        assert(events.last() == events[1]);
        assert(run(start, first).1 =~= run(start, events.take(0)).1.push(
            run(start, first).1.last(),
        ));
    } else {
        assert(events.drop_last()[0] == events[0]);
        assert(events.drop_last()[1] == events[1]);
        assert(events.drop_last().take(1) =~= events.take(1));
        assert(events.drop_last().take(0) =~= events.take(0));
        law_addressed_request_is_associated_first(start, events.drop_last());
    }
}

/// A request to an instance that has been removed is not sent. Both halves of its streams
/// are cancelled, the gauge goes down, and it fails with an error that lets the caller move
/// the request to another instance.
pub proof fn law_removed_instance_gets_nothing<E>(
    start: DispatchView,
    events: Seq<DispatchEventView<E>>,
)
    requires
        is_start(start),
        possible(start, events),
        events.len() > 1,
        events[1] == (DispatchEventView::<E>::Associated { live: false }),
    ensures
        events.len() <= 3,
        count(run(start, events).1, Kind::Send) == 0,
        run(start, events.take(2)).0.stage is Cancelling,
        run(start, events.take(2)).1 == run(start, events.take(1)).1.push(
            EffectView::CancelNow(registered_plan(events[0])),
        ),
        events.len() == 3 ==> {
            &&& run(start, events).0.stage is Finished
            &&& run(start, events).1 == run(start, events.take(2)).1.push(
                EffectView::DecrementInflight,
            ).push(
                EffectView::Fail(
                    crate::error::DispatchErrorView::Dynamo(
                        crate::error::DynamoErrorView {
                            error_type: Some(crate::error::ErrorType::Disconnected),
                            message: "Worker removed before request could be sent (tombstoned instance)"@,
                        },
                    ),
                ),
            )
        },
    decreases events.len(),
{
    broadcast use {lemma_count_none, lemma_count_push, lemma_count_add};

    let before = events.drop_last();
    lemma_ledger(start, before);
    if events.len() == 2 {
        lemma_plan(start, before);
        assert(before[0] == events[0]);
        assert(before =~= events.take(1));
        assert(events =~= events.take(2));
        assert(events.last() == events[1]);
        assert(run(start, events).1 =~= run(start, before).1.push(
            EffectView::CancelNow(registered_plan(events[0])),
        ));
    } else {
        assert(before[0] == events[0]);
        assert(before[1] == events[1]);
        assert(before.take(1) =~= events.take(1));
        assert(before.take(2) =~= events.take(2));
        law_removed_instance_gets_nothing(start, before);
        if events.len() == 3 {
            assert(before =~= events.take(2));
            assert(run(start, events).1 =~= run(start, before).1.push(
                EffectView::DecrementInflight,
            ).push(run(start, events).1.last()));
        }
    }
}

/// How far a dispatch has come.
spec fn rank(s: DispatchView) -> nat {
    let streams = s.request_type == RequestType::ManyIn;
    match s.stage {
        StageView::Registering => 0,
        StageView::Associating { .. } => 1,
        StageView::Cancelling => 2,
        StageView::SerializingControl => 2,
        StageView::SerializingPayload { .. } => 3,
        StageView::Encoding { .. } => if streams {
            3
        } else {
            4
        },
        StageView::Sending => if streams {
            4
        } else {
            5
        },
        StageView::AwaitingRequestStream => 5,
        StageView::AwaitingResponseStream => 6,
        StageView::Finished => 7,
    }
}

/// Every dispatch ends: none takes in more than seven events.
pub proof fn law_dispatch_ends<E>(start: DispatchView, events: Seq<DispatchEventView<E>>)
    requires
        is_start(start),
        possible(start, events),
    ensures
        events.len() <= 7,
{
    lemma_rank(start, events);
}

proof fn lemma_rank<E>(start: DispatchView, events: Seq<DispatchEventView<E>>)
    requires
        is_start(start),
        possible(start, events),
    ensures
        events.len() <= rank(run(start, events).0),
    decreases events.len(),
{
    if events.len() > 0 {
        lemma_rank(start, events.drop_last());
        lemma_kind(start, events.drop_last());
    }
}

/// Effects that take time and are answered with an event.
pub open spec fn is_answered<E>(effect: EffectView<E>) -> bool {
    match effect {
        EffectView::Register { .. } => true,
        EffectView::Associate { .. } => true,
        EffectView::CancelNow(_) => true,
        EffectView::SerializeControl(_) => true,
        EffectView::SerializePayload => true,
        EffectView::Encode(_) => true,
        EffectView::Send { .. } => true,
        EffectView::AwaitRequestStream => true,
        EffectView::AwaitResponseStream { .. } => true,
        _ => false,
    }
}

/// A dispatch asks one question at a time: each step ends in the one effect that is
/// answered, unless it ends the dispatch, and then nothing in it is. So what a dispatch
/// holds while an effect takes its time is what its drop gives back.
pub proof fn law_one_question_at_a_time<E>(
    start: DispatchView,
    events: Seq<DispatchEventView<E>>,
    event: DispatchEventView<E>,
    i: int,
)
    requires
        is_start(start),
        possible(start, events),
        run(start, events).0.expects(event),
        0 <= i < run(start, events).0.next(event).1.len(),
    ensures
        is_answered(run(start, events).0.next(event).1[i]) <==> {
            &&& i == run(start, events).0.next(event).1.len() - 1
            &&& !(run(start, events).0.next(event).0.stage is Finished)
        },
{
    lemma_ledger(start, events);
}

/// What a dispatch of that kind may ask for. A unary one brings its payload in the envelope
/// and has no request stream; a streaming one has a request stream and a bare envelope.
pub open spec fn befits<E>(effect: EffectView<E>, start: DispatchView) -> bool {
    let streams = start.request_type == RequestType::ManyIn;
    match effect {
        EffectView::Register { request_stream, response_stream } => request_stream == streams
            && response_stream,
        EffectView::Associate { recv_subject, send_subject, instance } => {
            &&& start.instance is Some
            &&& instance.endpoint == start.instance->0.endpoint
            &&& instance.instance_id == start.instance->0.instance_id
        },
        EffectView::SerializeControl(message) => {
            &&& message.request_type == start.request_type
            &&& message.request_stream_connection_info is Some <==> streams
            &&& message.id == start.id
            &&& message.metadata == start.metadata
        },
        EffectView::SerializePayload => !streams,
        EffectView::Encode(message) => message.data is None <==> streams,
        EffectView::Send { address, buffer, request_id, span_label } => {
            &&& address == start.address
            &&& request_id == start.id
            &&& span_label == "transport.tcp.send"@
        },
        EffectView::AwaitResponseStream { wait_label } => wait_label == (if streams {
            None
        } else {
            Some("transport.tcp.wait_backend"@)
        }),
        EffectView::AwaitRequestStream => streams,
        EffectView::SpawnForwarder => streams,
        _ => true,
    }
}

spec fn staged_in_kind(s: DispatchView, start: DispatchView) -> bool {
    let streams = start.request_type == RequestType::ManyIn;
    &&& s.request_type == start.request_type
    &&& s.id == start.id
    &&& s.metadata == start.metadata
    &&& s.address == start.address
    &&& s.instance == start.instance
    &&& s.stage is Associating ==> (s.stage->send is Some <==> streams)
    &&& s.stage is SerializingPayload ==> !streams
    &&& s.stage is AwaitingRequestStream ==> streams
    &&& s.stage is Encoding ==> s.stage->span_label == crate::wire::send_span_label()
}

/// Every effect of a dispatch befits its kind; streams are tied to the very instance that
/// the request is addressed to, and to no other of its endpoint; the request is sent at most
/// once, to the address and under the id it was started with and in the span of sending, and
/// it has been sent where the dispatch delivers; a unary request waits for its answer in the
/// span of waiting.
pub proof fn law_effects_befit_the_request<E>(
    start: DispatchView,
    events: Seq<DispatchEventView<E>>,
)
    requires
        is_start(start),
        possible(start, events),
    ensures
        forall|i: int|
            0 <= i < run(start, events).1.len() ==> befits(
                #[trigger] run(start, events).1[i],
                start,
            ),
        count(run(start, events).1, Kind::Send) <= 1,
        count(run(start, events).1, Kind::Deliver) == 1 ==> count(
            run(start, events).1,
            Kind::Send,
        ) == 1,
{
    lemma_kind(start, events);
    lemma_ledger(start, events);
}

proof fn lemma_kind<E>(start: DispatchView, events: Seq<DispatchEventView<E>>)
    requires
        is_start(start),
        possible(start, events),
    ensures
        staged_in_kind(run(start, events).0, start),
        forall|i: int|
            0 <= i < run(start, events).1.len() ==> befits(
                #[trigger] run(start, events).1[i],
                start,
            ),
    decreases events.len(),
{
    if events.len() > 0 {
        lemma_kind(start, events.drop_last());
        let before = run(start, events.drop_last());
        let step = before.0.next(events.last());
        lemma_kind_step(start, before.0, events.last());
        assert forall|i: int| 0 <= i < run(start, events).1.len() implies befits(
            #[trigger] run(start, events).1[i],
            start,
        ) by {
            if i < before.1.len() {
                assert(run(start, events).1[i] == before.1[i]);
            } else {
                assert(run(start, events).1[i] == step.1[i - before.1.len()]);
            }
        }
    }
}

proof fn lemma_kind_step<E>(start: DispatchView, s: DispatchView, event: DispatchEventView<E>)
    requires
        staged_in_kind(s, start),
        s.expects(event),
    ensures
        staged_in_kind(s.next(event).0, start),
        forall|i: int|
            0 <= i < s.next(event).1.len() ==> befits(#[trigger] s.next(event).1[i], start),
{
}

/// A streaming dispatch waits for the answer only once its input is being forwarded.
pub proof fn law_input_flows_before_the_answer<E>(
    start: DispatchView,
    events: Seq<DispatchEventView<E>>,
    i: int,
)
    requires
        is_start(start),
        possible(start, events),
        start.request_type == RequestType::ManyIn,
        0 <= i < run(start, events).1.len(),
        run(start, events).1[i] is AwaitResponseStream,
    ensures
        i > 0,
        run(start, events).1[i - 1] is SpawnForwarder,
    decreases events.len(),
{
    if events.len() > 0 {
        lemma_kind(start, events.drop_last());
        let before = run(start, events.drop_last());
        if i < before.1.len() {
            law_input_flows_before_the_answer(start, events.drop_last(), i);
        }
    }
}

/// Where the bytes of `effect` come from: an envelope holds a control message that the
/// serialiser made and that is within the limit, and a payload that it made; what is sent is
/// what the codec made.
pub open spec fn bytes_are_given<E>(
    effect: EffectView<E>,
    events: Seq<DispatchEventView<E>>,
) -> bool {
    match effect {
        EffectView::Encode(message) => {
            &&& message.header.len() <= crate::wire::CONTROL_MESSAGE_MAX_BYTES
            &&& events.contains(DispatchEventView::ControlSerialized(Ok(message.header)))
            &&& message.data is Some ==> events.contains(
                DispatchEventView::PayloadSerialized(Ok(message.data->0)),
            )
        },
        EffectView::Send { address, buffer, request_id, span_label } => events.contains(
            DispatchEventView::Encoded(Ok(buffer)),
        ),
        _ => true,
    }
}

/// Whatever goes on the wire was made by the serialiser and the codec for this dispatch, and
/// no control message over the limit does.
pub proof fn law_wire_bytes_are_given<E>(start: DispatchView, events: Seq<DispatchEventView<E>>)
    requires
        is_start(start),
        possible(start, events),
    ensures
        forall|i: int|
            0 <= i < run(start, events).1.len() ==> bytes_are_given(
                #[trigger] run(start, events).1[i],
                events,
            ),
{
    lemma_bytes(start, events);
}

proof fn lemma_bytes<E>(start: DispatchView, events: Seq<DispatchEventView<E>>)
    requires
        is_start(start),
        possible(start, events),
    ensures
        run(start, events).0.stage matches StageView::SerializingPayload { ctrl } ==> {
            &&& ctrl.len() <= crate::wire::CONTROL_MESSAGE_MAX_BYTES
            &&& events.contains(DispatchEventView::ControlSerialized(Ok(ctrl)))
        },
        forall|i: int|
            0 <= i < run(start, events).1.len() ==> bytes_are_given(
                #[trigger] run(start, events).1[i],
                events,
            ),
    decreases events.len(),
{
    if events.len() > 0 {
        let earlier = events.drop_last();
        lemma_bytes(start, earlier);
        let before = run(start, earlier);
        let step = before.0.next(events.last());
        assert(events[events.len() - 1] == events.last());
        assert forall|event: DispatchEventView<E>| earlier.contains(event) implies events.contains(
            event,
        ) by {
            let j = choose|j: int| 0 <= j < earlier.len() && earlier[j] == event;
            assert(events[j] == event);
        }
        assert forall|i: int| 0 <= i < run(start, events).1.len() implies bytes_are_given(
            #[trigger] run(start, events).1[i],
            events,
        ) by {
            if i < before.1.len() {
                assert(run(start, events).1[i] == before.1[i]);
            } else {
                assert(run(start, events).1[i] == step.1[i - before.1.len()]);
            }
        }
    }
}

} // verus!
