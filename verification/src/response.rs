//! How the frames of a response stream become the items that a caller sees.

use vstd::prelude::*;

use crate::context::{EngineContext, EngineStream};
use crate::error::{DynamoError, DynamoErrorView, ErrorType};
use crate::guards::InflightGuard;

verus! {

/// One decoded frame of a response stream: the item that it carries, if any, and whether
/// it is the last one of the response.
#[derive(Debug)]
pub struct NetworkStreamWrapper<U> {
    pub data: Option<U>,
    pub complete_final: bool,
}

/// What the decoder made of a frame: the frame, or the words of its error.
pub open spec fn decoded_of<U>(decoded: Result<NetworkStreamWrapper<U>, String>) -> Result<
    NetworkStreamWrapper<U>,
    Seq<char>,
> {
    match decoded {
        Ok(frame) => Ok(frame),
        Err(text) => Err(text@),
    }
}

/// The plain value of what a frame yields.
pub open spec fn item_of<U>(item: Option<Result<U, DynamoError>>) -> Option<
    Result<U, DynamoErrorView>,
> {
    match item {
        Some(Ok(data)) => Some(Ok(data)),
        Some(Err(error)) => Some(Err(error@)),
        None => None,
    }
}

/// The plain value of an optional error.
pub open spec fn error_of(error: Option<DynamoError>) -> Option<DynamoErrorView> {
    match error {
        Some(error) => Some(error@),
        None => None,
    }
}

/// The error that a frame yields where it comes after the last one.
pub open spec fn late_error() -> DynamoErrorView {
    DynamoErrorView {
        error_type: None,
        message: "Response received after generation ended - this should never happen"@,
    }
}

/// The error that a frame yields where it carries nothing and is not the last one.
pub open spec fn empty_error() -> DynamoErrorView {
    DynamoErrorView {
        error_type: None,
        message: "Empty response received - this should never happen"@,
    }
}

/// The error of a stream that was cut off.
pub open spec fn cut_off_error() -> DynamoErrorView {
    DynamoErrorView {
        error_type: Some(ErrorType::Disconnected),
        message: "Stream ended before generation completed"@,
    }
}

/// Whether the response is complete after a frame, and what the frame yields. `complete`
/// says whether it was before.
pub open spec fn on_frame<U>(
    complete: bool,
    frame: Result<NetworkStreamWrapper<U>, Seq<char>>,
) -> (bool, Option<Result<U, DynamoErrorView>>) {
    if complete {
        (true, Some(Err(late_error())))
    } else {
        match frame {
            Err(text) => (
                false,
                Some(Err(DynamoErrorView { error_type: None, message: text })),
            ),
            Ok(frame) => (
                frame.complete_final,
                match frame.data {
                    Some(data) => Some(Ok(data)),
                    None => if frame.complete_final {
                        None
                    } else {
                        Some(Err(empty_error()))
                    },
                },
            ),
        }
    }
}

/// What the end of the stream yields: an error, unless the response is complete or the
/// caller has stopped the request.
pub open spec fn on_close(complete: bool, stopped: bool) -> Option<DynamoErrorView> {
    if complete || stopped {
        None
    } else {
        Some(cut_off_error())
    }
}

/// Follows one response stream.
#[derive(Debug)]
pub struct ResponseFilter {
    is_complete_final: bool,
    first_response: bool,
}

/// The state of a [`ResponseFilter`].
pub struct FilterView {
    /// Whether the last frame of the response has come.
    pub complete: bool,
    /// Whether no frame has come yet.
    pub first: bool,
}

impl View for ResponseFilter {
    type V = FilterView;

    closed spec fn view(&self) -> FilterView {
        FilterView { complete: self.is_complete_final, first: self.first_response }
    }
}

/// The label under which the time to the first frame goes to the stage metric.
pub open spec fn roundtrip_stage_label() -> Seq<char> {
    "transport_roundtrip"@
}

/// The plain value of an optional label.
pub open spec fn label_of(label: Option<&'static str>) -> Option<Seq<char>> {
    match label {
        Some(label) => Some(label@),
        None => None,
    }
}

/// What a frame is observed under in the stage metric. `first` says whether it is the first
/// one of its stream.
pub open spec fn observed_stage(first: bool) -> Option<Seq<char>> {
    if first {
        Some(roundtrip_stage_label())
    } else {
        None
    }
}

/// How a frame has to be treated.
#[derive(Debug)]
pub struct Arrival {
    /// The frame is the first one: the time to it since the request was sent is observed.
    pub observe_first_response: bool,
    /// The time to the frame since the request was queued is observed in the stage metric,
    /// under this label.
    pub stage_label: Option<&'static str>,
    /// The frame comes too late and yields this error; it is not decoded.
    pub late: Option<DynamoError>,
}

impl ResponseFilter {
    /// The filter of a stream of which nothing has come.
    pub fn new() -> (filter: ResponseFilter)
        ensures
            filter@ == (FilterView { complete: false, first: true }),
    {
        ResponseFilter { is_complete_final: false, first_response: true }
    }

    /// Takes note of a frame, before it is decoded.
    pub fn begin_frame(&mut self) -> (arrival: Arrival)
        ensures
            final(self)@ == (FilterView { complete: old(self)@.complete, first: false }),
            arrival.observe_first_response == old(self)@.first,
            label_of(arrival.stage_label) == observed_stage(old(self)@.first),
            arrival.stage_label is Some <==> old(self)@.first,
            arrival.stage_label matches Some(label) ==> label@ == "transport_roundtrip"@,
            arrival.late is Some <==> old(self)@.complete,
            arrival.late matches Some(error) ==> {
                &&& error.error_type is None
                &&& error.message@
                    == "Response received after generation ended - this should never happen"@
            },
            error_of(arrival.late) == (if old(self)@.complete {
                Some(late_error())
            } else {
                None
            }),
    {
        let observe_first_response = self.first_response;
        let stage_label = if self.first_response {
            Some("transport_roundtrip")
        } else {
            None
        };
        self.first_response = false;
        let late = if self.is_complete_final {
            Some(
                DynamoError::msg(
                    "Response received after generation ended - this should never happen".to_string(),
                ),
            )
        } else {
            None
        };
        Arrival { observe_first_response, stage_label, late }
    }

    /// Takes in what the decoder made of a frame that is not late, and says what it yields.
    pub fn finish_frame<U>(&mut self, decoded: Result<NetworkStreamWrapper<U>, String>) -> (item:
        Option<Result<U, DynamoError>>)
        requires
            !old(self)@.complete,
        ensures
            (final(self)@.complete, item_of(item)) == on_frame(false, decoded_of(decoded)),
            final(self)@.first == old(self)@.first,
            final(self)@.complete == (decoded is Ok && decoded->Ok_0.complete_final),
            decoded matches Ok(frame) ==> {
                &&& frame.data matches Some(data) ==> item == Some(Ok::<U, DynamoError>(data))
                &&& frame.data is None && frame.complete_final ==> item is None
                &&& frame.data is None && !frame.complete_final ==> {
                    &&& item matches Some(Err(error))
                    &&& error.error_type is None
                    &&& error.message@ == "Empty response received - this should never happen"@
                }
            },
            decoded matches Err(text) ==> {
                &&& item matches Some(Err(error))
                &&& error.error_type is None
                &&& error.message@ == text@
            },
    {
        match decoded {
            Ok(frame) => {
                self.is_complete_final = frame.complete_final;
                match frame.data {
                    Some(data) => Some(Ok(data)),
                    None => {
                        if self.is_complete_final {
                            None
                        } else {
                            Some(
                                Err(
                                    DynamoError::msg(
                                        "Empty response received - this should never happen".to_string(),
                                    ),
                                ),
                            )
                        }
                    },
                }
            },
            Err(text) => Some(Err(DynamoError::msg(text))),
        }
    }

    /// What the end of the stream yields. `stopped` says whether the caller has stopped the
    /// request.
    pub fn close(&self, stopped: bool) -> (error: Option<DynamoError>)
        ensures
            error_of(error) == on_close(self@.complete, stopped),
            error is Some <==> !self@.complete && !stopped,
            error matches Some(error) ==> {
                &&& error.error_type == Some(ErrorType::Disconnected)
                &&& error.message@ == "Stream ended before generation completed"@
            },
    {
        if self.is_complete_final || stopped {
            None
        } else {
            Some(
                DynamoError::of_type(
                    ErrorType::Disconnected,
                    "Stream ended before generation completed".to_string(),
                ),
            )
        }
    }
}

/// Where a filter stands after `frames`, how often the time to the first response has been
/// observed by then, and under which labels the stage metric has been fed.
pub open spec fn observations<U>(frames: Seq<Result<NetworkStreamWrapper<U>, Seq<char>>>) -> (
    FilterView,
    nat,
    Seq<Seq<char>>,
)
    decreases frames.len(),
{
    if frames.len() == 0 {
        (FilterView { complete: false, first: true }, 0, seq![])
    } else {
        let before = observations(frames.drop_last());
        (
            FilterView { complete: on_frame(before.0.complete, frames.last()).0, first: false },
            before.1 + if before.0.first {
                1nat
            } else {
                0nat
            },
            match observed_stage(before.0.first) {
                Some(label) => before.2.push(label),
                None => before.2,
            },
        )
    }
}

/// A stream on which frames have come, whatever is in them, has fed each of the two metrics
/// once, at the first frame, and the stage metric under the label of the roundtrip. One on
/// which none has come has fed neither.
pub proof fn law_first_frame_is_observed_once<U>(
    frames: Seq<Result<NetworkStreamWrapper<U>, Seq<char>>>,
)
    ensures
        observations(frames).0.first <==> frames.len() == 0,
        observations(frames).1 == (if frames.len() > 0 {
            1nat
        } else {
            0nat
        }),
        observations(frames).2 == (if frames.len() > 0 {
            seq!["transport_roundtrip"@]
        } else {
            seq![]
        }),
    decreases frames.len(),
{
    if frames.len() > 0 {
        law_first_frame_is_observed_once(frames.drop_last());
    }
}

/// A stream that keeps its request in the inflight gauge for as long as it lives.
pub struct InflightDecStream<S> {
    inner: S,
    inflight: InflightGuard,
}

/// What can be done with a stream that has been delivered.
pub enum StreamUse {
    /// It is read from.
    Read,
    /// It is dropped.
    Drop,
}

/// What one use makes of a stream: whether it keeps a unit of the gauge afterwards, and
/// whether the use gives one back. `holds` says whether it kept one before.
pub open spec fn use_step(holds: bool, stream_use: StreamUse) -> (bool, bool) {
    match stream_use {
        StreamUse::Read => (holds, false),
        StreamUse::Drop => (false, holds),
    }
}

impl<S> InflightDecStream<S> {
    /// The stream that is read.
    pub closed spec fn inner(&self) -> S {
        self.inner
    }

    /// Whether a unit of the gauge is kept for the stream.
    pub closed spec fn holds(&self) -> bool {
        self.inflight.armed()
    }

    /// The stream, to read from.
    pub fn inner_mut(&mut self) -> (inner: &mut S)
        ensures
            *inner == old(self).inner(),
            final(self).inner() == *final(inner),
            (final(self).holds(), false) == use_step(old(self).holds(), StreamUse::Read),
            final(self).holds() == old(self).holds(),
    {
        &mut self.inner
    }

    /// What the drop of the stream does: whether the gauge goes down by one.
    pub fn on_drop(&mut self) -> (decrements: bool)
        ensures
            (final(self).holds(), decrements) == use_step(old(self).holds(), StreamUse::Drop),
            decrements == old(self).holds(),
            !final(self).holds(),
            final(self).inner() == old(self).inner(),
    {
        let decrements = self.inflight.decrements_on_drop();
        self.inflight.disarm();
        decrements
    }
}

/// Shapes what a dispatch has delivered into the answer of the engine. The stream takes
/// over what `inflight_guard` keeps, and nothing is given back on the way; the context is
/// handed on as it is.
pub fn finalize_response_stream<S, C>(
    stream: S,
    context: EngineContext<C>,
    inflight_guard: InflightGuard,
) -> (out: EngineStream<InflightDecStream<S>, C>)
    ensures
        out@.stream.inner() == stream,
        out@.stream.holds() == inflight_guard.armed(),
        out@.context == context,
{
    EngineStream::new(InflightDecStream { inner: stream, inflight: inflight_guard }, context)
}

/// How many units of the gauge the uses of a stream give back.
pub open spec fn given_back(holds: bool, uses: Seq<StreamUse>) -> nat
    decreases uses.len(),
{
    if uses.len() == 0 {
        0
    } else {
        let step = use_step(holds, uses.first());
        given_back(step.0, uses.drop_first()) + if step.1 {
            1nat
        } else {
            0nat
        }
    }
}

/// A stream that keeps a unit of the gauge keeps it for as long as it lives, however much
/// of it is read, and gives it back once, when it is dropped. One that keeps none gives
/// none back.
pub proof fn law_stream_gives_back_once(holds: bool, uses: Seq<StreamUse>)
    ensures
        given_back(holds, uses) == (if holds && uses.contains(StreamUse::Drop) {
            1nat
        } else {
            0nat
        }),
    decreases uses.len(),
{
    if uses.len() > 0 {
        let rest = uses.drop_first();
        law_stream_gives_back_once(use_step(holds, uses.first()).0, rest);
        assert(uses[0] == uses.first());
        if rest.contains(StreamUse::Drop) {
            let i = choose|i: int| 0 <= i < rest.len() && rest[i] == StreamUse::Drop;
            assert(uses[i + 1] == StreamUse::Drop);
        }
        if uses.contains(StreamUse::Drop) && uses.first() != StreamUse::Drop {
            let i = choose|i: int| 0 <= i < uses.len() && uses[i] == StreamUse::Drop;
            assert(rest[i - 1] == StreamUse::Drop);
        }
    }
}

/// Whether the response is complete after `frames`, and the items that they yield.
pub open spec fn outcome<U>(frames: Seq<Result<NetworkStreamWrapper<U>, Seq<char>>>) -> (
    bool,
    Seq<Result<U, DynamoErrorView>>,
)
    decreases frames.len(),
{
    if frames.len() == 0 {
        (false, seq![])
    } else {
        let before = outcome(frames.drop_last());
        let step = on_frame(before.0, frames.last());
        (
            step.0,
            match step.1 {
                Some(item) => before.1.push(item),
                None => before.1,
            },
        )
    }
}

/// The data among `items`, in order.
pub open spec fn data_in<U>(items: Seq<Result<U, DynamoErrorView>>) -> Seq<U>
    decreases items.len(),
{
    if items.len() == 0 {
        seq![]
    } else {
        match items.last() {
            Ok(data) => data_in(items.drop_last()).push(data),
            Err(_) => data_in(items.drop_last()),
        }
    }
}

/// A frame that says the response ends with it.
pub open spec fn is_last<U>(frame: Result<NetworkStreamWrapper<U>, Seq<char>>) -> bool {
    frame matches Ok(f) && f.complete_final
}

/// The data that `frames` carry, in order.
pub open spec fn carried<U>(frames: Seq<Result<NetworkStreamWrapper<U>, Seq<char>>>) -> Seq<U>
    decreases frames.len(),
{
    if frames.len() == 0 {
        seq![]
    } else {
        let before = carried(frames.drop_last());
        match frames.last() {
            Ok(frame) => match frame.data {
                Some(data) => before.push(data),
                None => before,
            },
            Err(_) => before,
        }
    }
}

/// No frame of `frames` ends the response but, perhaps, the one behind them.
pub open spec fn none_last<U>(frames: Seq<Result<NetworkStreamWrapper<U>, Seq<char>>>) -> bool {
    forall|i: int| 0 <= i < frames.len() ==> !is_last(#[trigger] frames[i])
}

proof fn lemma_before_the_last<U>(frames: Seq<Result<NetworkStreamWrapper<U>, Seq<char>>>)
    requires
        none_last(frames),
    ensures
        !outcome(frames).0,
        data_in(outcome(frames).1) == carried(frames),
        outcome(frames).1.len() == frames.len(),
    decreases frames.len(),
{
    if frames.len() > 0 {
        assert forall|i: int| 0 <= i < frames.drop_last().len() implies !is_last(
            #[trigger] frames.drop_last()[i],
        ) by {
            assert(frames.drop_last()[i] == frames[i]);
        }
        lemma_before_the_last(frames.drop_last());
        assert(!is_last(frames[frames.len() - 1]));
        let before = outcome(frames.drop_last());
        let item = on_frame(false, frames.last()).1->0;
        assert(before.1.push(item).drop_last() =~= before.1);
    }
}

/// The caller gets the data of the response, all of it, in order and once: what the frames
/// before the last one carry, then what the last one carries. It is complete then.
pub proof fn law_data_arrives_in_order<U>(
    frames: Seq<Result<NetworkStreamWrapper<U>, Seq<char>>>,
    last: Result<NetworkStreamWrapper<U>, Seq<char>>,
)
    requires
        none_last(frames),
        is_last(last),
    ensures
        !outcome(frames).0,
        data_in(outcome(frames).1) == carried(frames),
        outcome(frames.push(last)).0,
        data_in(outcome(frames.push(last)).1) == carried(frames.push(last)),
{
    lemma_before_the_last(frames);
    assert(frames.push(last).drop_last() =~= frames);
    let before = outcome(frames);
    if last->Ok_0.data is Some {
        let item = on_frame(false, last).1->0;
        assert(before.1.push(item).drop_last() =~= before.1);
    }
}

/// Once a response is complete, it stays so, and whatever else comes yields an error per
/// frame and no data.
pub proof fn law_nothing_after_the_last<U>(
    frames: Seq<Result<NetworkStreamWrapper<U>, Seq<char>>>,
    more: Seq<Result<NetworkStreamWrapper<U>, Seq<char>>>,
)
    requires
        outcome(frames).0,
    ensures
        outcome(frames + more).0,
        outcome(frames + more).1 == outcome(frames).1 + Seq::new(
            more.len(),
            |i: int| Err::<U, DynamoErrorView>(late_error()),
        ),
    decreases more.len(),
{
    if more.len() == 0 {
        assert(frames + more =~= frames);
        assert(outcome(frames).1 + Seq::new(
            0,
            |i: int| Err::<U, DynamoErrorView>(late_error()),
        ) =~= outcome(frames).1);
    } else {
        law_nothing_after_the_last(frames, more.drop_last());
        assert((frames + more).drop_last() =~= frames + more.drop_last());
        assert(outcome(frames + more).1 =~= outcome(frames).1 + Seq::new(
            more.len(),
            |i: int| Err::<U, DynamoErrorView>(late_error()),
        ));
    }
}

/// No frame before the last one passes in silence: each yields an item, data or error.
pub proof fn law_no_frame_is_swallowed<U>(frames: Seq<Result<NetworkStreamWrapper<U>, Seq<char>>>)
    requires
        none_last(frames),
    ensures
        outcome(frames).1.len() == frames.len(),
{
    lemma_before_the_last(frames);
}

/// A stream that ends before its last frame ends in an error that lets the caller move the
/// request, unless the caller had stopped it; one that ends after its last frame does not.
pub proof fn law_cut_off_stream_is_reported<U>(
    frames: Seq<Result<NetworkStreamWrapper<U>, Seq<char>>>,
    last: Result<NetworkStreamWrapper<U>, Seq<char>>,
    more: Seq<Result<NetworkStreamWrapper<U>, Seq<char>>>,
    stopped: bool,
)
    requires
        none_last(frames),
        is_last(last),
    ensures
        on_close(outcome(frames).0, false) == Some(cut_off_error()),
        on_close(outcome(frames).0, true) is None,
        on_close(outcome(frames.push(last) + more).0, stopped) is None,
{
    law_data_arrives_in_order(frames, last);
    law_nothing_after_the_last(frames.push(last), more);
}

/// Some frame of `frames` has ended the response.
pub open spec fn has_ended<U>(frames: Seq<Result<NetworkStreamWrapper<U>, Seq<char>>>) -> bool {
    exists|i: int| 0 <= i < frames.len() && is_last(#[trigger] frames[i])
}

/// A response is complete once a frame has said so, and not before. Until then a frame
/// yields the data that it carries; one that cannot be decoded yields the words of the
/// decoder, an empty one yields an error unless it is the last, which yields nothing.
/// After that every frame yields an error. When the stream closes, a response that is not
/// complete yields an error of a lost worker, unless the caller has stopped the request.
pub proof fn law_frame_yields_what_it_carries<U>(
    frames: Seq<Result<NetworkStreamWrapper<U>, Seq<char>>>,
    frame: Result<NetworkStreamWrapper<U>, Seq<char>>,
    stopped: bool,
)
    ensures
        ({
            let before = outcome(frames).1;
            let now = outcome(frames.push(frame)).1;
            let ended = has_ended(frames);
            &&& outcome(frames).0 <==> ended
            &&& ended ==> now == before.push(
                Err(
                    DynamoErrorView {
                        error_type: None,
                        message: "Response received after generation ended - this should never happen"@,
                    },
                ),
            )
            &&& !ended && frame is Err ==> now == before.push(
                Err(DynamoErrorView { error_type: None, message: frame->Err_0 }),
            )
            &&& !ended && frame is Ok && frame->Ok_0.data is Some ==> now == before.push(
                Ok(frame->Ok_0.data->0),
            )
            &&& !ended && frame is Ok && frame->Ok_0.data is None && frame->Ok_0.complete_final
                ==> now == before
            &&& !ended && frame is Ok && frame->Ok_0.data is None && !frame->Ok_0.complete_final
                ==> now == before.push(
                Err(
                    DynamoErrorView {
                        error_type: None,
                        message: "Empty response received - this should never happen"@,
                    },
                ),
            )
            &&& on_close(outcome(frames).0, stopped) == (if ended || stopped {
                None
            } else {
                Some(
                    DynamoErrorView {
                        error_type: Some(ErrorType::Disconnected),
                        message: "Stream ended before generation completed"@,
                    },
                )
            })
        }),
{
    lemma_complete_once_ended(frames);
    assert(frames.push(frame).drop_last() =~= frames);
}

proof fn lemma_complete_once_ended<U>(frames: Seq<Result<NetworkStreamWrapper<U>, Seq<char>>>)
    ensures
        outcome(frames).0 <==> has_ended(frames),
    decreases frames.len(),
{
    if frames.len() > 0 {
        let earlier = frames.drop_last();
        lemma_complete_once_ended(earlier);
        if has_ended(earlier) {
            let i = choose|i: int| 0 <= i < earlier.len() && is_last(#[trigger] earlier[i]);
            assert(is_last(frames[i]));
        }
        if has_ended(frames) {
            let i = choose|i: int| 0 <= i < frames.len() && is_last(#[trigger] frames[i]);
            if i < earlier.len() {
                assert(is_last(earlier[i]));
            }
        }
        if is_last(frames.last()) {
            assert(is_last(frames[frames.len() - 1]));
        }
    }
}

} // verus!
