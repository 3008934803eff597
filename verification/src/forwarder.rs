//! How the input of a streaming request is pumped to the worker.

use vstd::prelude::*;

use crate::codec::bytes_from_vec;

verus! {

/// What a forwarder is told.
#[derive(Debug)]
pub enum ForwardEvent {
    /// The request has been killed.
    Killed,
    /// The request has been stopped.
    Stopped,
    /// The input has an item; it is held ready.
    Item,
    /// The input has ended.
    EndOfInput,
    /// What the serialiser made of the item.
    Serialized(Option<Vec<u8>>),
    /// Whether the worker's end took the frame.
    Sent(bool),
}

/// The plain value of a [`ForwardEvent`].
pub enum ForwardEventView {
    Killed,
    Stopped,
    Item,
    EndOfInput,
    Serialized(Option<Seq<u8>>),
    Sent(bool),
}

impl View for ForwardEvent {
    type V = ForwardEventView;

    open spec fn view(&self) -> ForwardEventView {
        match self {
            ForwardEvent::Killed => ForwardEventView::Killed,
            ForwardEvent::Stopped => ForwardEventView::Stopped,
            ForwardEvent::Item => ForwardEventView::Item,
            ForwardEvent::EndOfInput => ForwardEventView::EndOfInput,
            ForwardEvent::Serialized(frame) => ForwardEventView::Serialized(
                crate::wire::payload_of(*frame),
            ),
            ForwardEvent::Sent(taken) => ForwardEventView::Sent(*taken),
        }
    }
}

/// What a forwarder asks for.
#[derive(Debug)]
pub enum ForwardAction {
    /// Wait for a kill, a stop or the next item; of what has happened, the first in that
    /// order counts.
    Poll,
    /// Serialise the item.
    Serialize,
    /// Send the frame.
    Send(bytes::Bytes),
    /// Kill the request, both directions of it, and end.
    KillAndExit,
    /// End. The worker sees the input close.
    Exit,
}

/// The plain value of a [`ForwardAction`].
pub enum ForwardActionView {
    Poll,
    Serialize,
    Send(Seq<u8>),
    KillAndExit,
    Exit,
}

impl View for ForwardAction {
    type V = ForwardActionView;

    open spec fn view(&self) -> ForwardActionView {
        match self {
            ForwardAction::Poll => ForwardActionView::Poll,
            ForwardAction::Serialize => ForwardActionView::Serialize,
            ForwardAction::Send(frame) => ForwardActionView::Send(
                crate::codec::bytes_content(*frame),
            ),
            ForwardAction::KillAndExit => ForwardActionView::KillAndExit,
            ForwardAction::Exit => ForwardActionView::Exit,
        }
    }
}

/// What a forwarder waits for.
#[derive(Clone, Copy, Debug, PartialEq, Eq, Structural)]
pub enum ForwardStage {
    Polling,
    Serializing,
    Sending,
    Exited,
}

impl ForwardStage {
    /// Whether `event` is what a forwarder at this stage waits for.
    pub open spec fn expects(self, event: ForwardEventView) -> bool {
        match event {
            ForwardEventView::Serialized(_) => self == ForwardStage::Serializing,
            ForwardEventView::Sent(_) => self == ForwardStage::Sending,
            _ => self == ForwardStage::Polling,
        }
    }

    /// The stage after `event`, and what the forwarder asks for then. A kill, a stop, the
    /// end of the input and a worker that takes no more end it; an item that cannot be
    /// serialised ends the whole request, so that the worker never works on partial input.
    pub open spec fn next(self, event: ForwardEventView) -> (ForwardStage, ForwardActionView) {
        match event {
            ForwardEventView::Killed => (ForwardStage::Exited, ForwardActionView::Exit),
            ForwardEventView::Stopped => (ForwardStage::Exited, ForwardActionView::Exit),
            ForwardEventView::EndOfInput => (ForwardStage::Exited, ForwardActionView::Exit),
            ForwardEventView::Item => (ForwardStage::Serializing, ForwardActionView::Serialize),
            ForwardEventView::Serialized(Some(frame)) => (
                ForwardStage::Sending,
                ForwardActionView::Send(frame),
            ),
            ForwardEventView::Serialized(None) => (
                ForwardStage::Exited,
                ForwardActionView::KillAndExit,
            ),
            ForwardEventView::Sent(taken) => if taken {
                (ForwardStage::Polling, ForwardActionView::Poll)
            } else {
                (ForwardStage::Exited, ForwardActionView::Exit)
            },
        }
    }
}

/// Pumps the input of one request.
#[derive(Debug)]
pub struct Forwarder {
    stage: ForwardStage,
}

impl View for Forwarder {
    type V = ForwardStage;

    closed spec fn view(&self) -> ForwardStage {
        self.stage
    }
}

impl Forwarder {
    /// A forwarder that has forwarded nothing; it starts by polling.
    pub fn new() -> (forwarder: Forwarder)
        ensures
            forwarder@ == ForwardStage::Polling,
    {
        Forwarder { stage: ForwardStage::Polling }
    }

    /// Whether `event` is what this forwarder waits for.
    pub fn accepts(&self, event: &ForwardEvent) -> (accepts: bool)
        ensures
            accepts == self@.expects(event@),
    {
        match event {
            ForwardEvent::Serialized(_) => self.stage == ForwardStage::Serializing,
            ForwardEvent::Sent(_) => self.stage == ForwardStage::Sending,
            _ => self.stage == ForwardStage::Polling,
        }
    }

    /// Takes in what came of the last action, and says what to do next.
    pub fn step(&mut self, event: ForwardEvent) -> (action: ForwardAction)
        requires
            old(self)@.expects(event@),
        ensures
            (final(self)@, action@) == old(self)@.next(event@),
    {
        match event {
            ForwardEvent::Killed => {
                self.stage = ForwardStage::Exited;
                ForwardAction::Exit
            },
            ForwardEvent::Stopped => {
                self.stage = ForwardStage::Exited;
                ForwardAction::Exit
            },
            ForwardEvent::EndOfInput => {
                self.stage = ForwardStage::Exited;
                ForwardAction::Exit
            },
            ForwardEvent::Item => {
                self.stage = ForwardStage::Serializing;
                ForwardAction::Serialize
            },
            ForwardEvent::Serialized(frame) => match frame {
                Some(frame) => {
                    self.stage = ForwardStage::Sending;
                    ForwardAction::Send(bytes_from_vec(frame))
                },
                None => {
                    self.stage = ForwardStage::Exited;
                    ForwardAction::KillAndExit
                },
            },
            ForwardEvent::Sent(taken) => {
                if taken {
                    self.stage = ForwardStage::Polling;
                    ForwardAction::Poll
                } else {
                    self.stage = ForwardStage::Exited;
                    ForwardAction::Exit
                }
            },
        }
    }
}

/// Where a forwarder stands after `events`, and what it has asked for on the way.
pub open spec fn run(events: Seq<ForwardEventView>) -> (ForwardStage, Seq<ForwardActionView>)
    decreases events.len(),
{
    if events.len() == 0 {
        (ForwardStage::Polling, seq![ForwardActionView::Poll])
    } else {
        let before = run(events.drop_last());
        let step = before.0.next(events.last());
        (step.0, before.1.push(step.1))
    }
}

/// Each of `events` is one that the forwarder waited for when it came.
pub open spec fn possible(events: Seq<ForwardEventView>) -> bool
    decreases events.len(),
{
    events.len() > 0 ==> {
        &&& possible(events.drop_last())
        &&& run(events.drop_last()).0.expects(events.last())
    }
}

/// The frames that the serialiser made, in order.
pub open spec fn frames_made(events: Seq<ForwardEventView>) -> Seq<Seq<u8>>
    decreases events.len(),
{
    if events.len() == 0 {
        seq![]
    } else {
        match events.last() {
            ForwardEventView::Serialized(Some(frame)) => frames_made(events.drop_last()).push(
                frame,
            ),
            _ => frames_made(events.drop_last()),
        }
    }
}

/// The frames that were sent, in order.
pub open spec fn frames_sent(actions: Seq<ForwardActionView>) -> Seq<Seq<u8>>
    decreases actions.len(),
{
    if actions.len() == 0 {
        seq![]
    } else {
        match actions.last() {
            ForwardActionView::Send(frame) => frames_sent(actions.drop_last()).push(frame),
            _ => frames_sent(actions.drop_last()),
        }
    }
}

/// How many items the input has given.
pub open spec fn items_given(events: Seq<ForwardEventView>) -> nat
    decreases events.len(),
{
    if events.len() == 0 {
        0
    } else {
        items_given(events.drop_last()) + if events.last() is Item {
            1nat
        } else {
            0nat
        }
    }
}

/// Every item that the input gives is sent, once and in order, before the next one is asked
/// for: while the forwarder polls, as many frames have been sent as items have come, and
/// they are the frames that the serialiser made.
pub proof fn law_frames_keep_their_order(events: Seq<ForwardEventView>)
    requires
        possible(events),
    ensures
        frames_sent(run(events).1) == frames_made(events),
        run(events).0 == ForwardStage::Polling ==> frames_made(events).len() == items_given(events),
        run(events).0 == ForwardStage::Sending ==> frames_made(events).len() == items_given(events),
        run(events).0 == ForwardStage::Serializing ==> frames_made(events).len() + 1
            == items_given(events),
    decreases events.len(),
{
    if events.len() == 0 {
        let poll = seq![ForwardActionView::Poll];
        assert(poll.drop_last() =~= seq![]);
        assert(frames_sent(poll.drop_last()) =~= seq![]);
    } else {
        law_frames_keep_their_order(events.drop_last());
        let before = run(events.drop_last());
        let step = before.0.next(events.last());
        assert(before.1.push(step.1).drop_last() =~= before.1);
    }
}

/// The request is killed if and only if an item could not be serialised, and nothing comes
/// after that; nothing comes after any exit.
pub proof fn law_partial_input_kills_the_request(events: Seq<ForwardEventView>, i: int)
    requires
        possible(events),
        0 <= i < events.len(),
    ensures
        run(events).1.len() == events.len() + 1,
        run(events).1[i + 1] is KillAndExit <==> events[i] == ForwardEventView::Serialized(None),
        run(events).1[i + 1] is KillAndExit ==> i == events.len() - 1,
        run(events).1[i + 1] is Exit ==> i == events.len() - 1,
    decreases events.len(),
{
    lemma_one_action_per_event(events.drop_last());
    let before = run(events.drop_last());
    if i < events.len() - 1 {
        law_partial_input_kills_the_request(events.drop_last(), i);
        assert(events.drop_last()[i] == events[i]);
        if i == events.len() - 2 {
            assert(before.1.last() == run(events).1[i + 1]);
            assert(events.drop_last().last() == events[i]);
        }
    }
}

proof fn lemma_one_action_per_event(events: Seq<ForwardEventView>)
    ensures
        run(events).1.len() == events.len() + 1,
    decreases events.len(),
{
    if events.len() > 0 {
        lemma_one_action_per_event(events.drop_last());
    }
}

/// `event` ends a forwarder.
pub open spec fn ends_forwarding(event: ForwardEventView) -> bool {
    match event {
        ForwardEventView::Killed => true,
        ForwardEventView::Stopped => true,
        ForwardEventView::EndOfInput => true,
        ForwardEventView::Item => false,
        ForwardEventView::Serialized(frame) => frame is None,
        ForwardEventView::Sent(taken) => !taken,
    }
}

/// `event` can be the answer to `action`.
pub open spec fn answers(action: ForwardActionView, event: ForwardEventView) -> bool {
    match event {
        ForwardEventView::Serialized(_) => action is Serialize,
        ForwardEventView::Sent(_) => action is Send,
        _ => action is Poll,
    }
}

/// A forwarder goes on until it is killed or stopped, its input ends, an item cannot be
/// serialised or the worker takes no more. Until then it takes every answer to what it asked
/// for last, whatever a frame holds, and asks for the next thing: an item is serialised, its
/// frame is sent as the serialiser made it, and after a frame that was taken it polls again.
pub proof fn law_forwarder_goes_on_until_it_is_ended(
    events: Seq<ForwardEventView>,
    event: ForwardEventView,
)
    requires
        possible(events),
    ensures
        run(events).0 == ForwardStage::Exited <==> events.len() > 0 && ends_forwarding(
            events.last(),
        ),
        run(events).0.expects(event) <==> answers(run(events).1.last(), event),
        events.len() == 0 ==> run(events).1 == seq![ForwardActionView::Poll],
        events.len() > 0 ==> {
            let asked = run(events).1.last();
            &&& run(events).1 == run(events.drop_last()).1.push(asked)
            &&& events.last() is Item ==> asked is Serialize
            &&& events.last() matches ForwardEventView::Serialized(Some(frame)) ==> asked
                == ForwardActionView::Send(frame)
            &&& events.last() == ForwardEventView::Sent(true) ==> asked is Poll
            &&& events.last() == ForwardEventView::Serialized(None) ==> asked is KillAndExit
            &&& ends_forwarding(events.last()) && !(events.last() is Serialized) ==> asked is Exit
        },
    decreases events.len(),
{
    lemma_one_action_per_event(events);
    if events.len() > 0 {
        law_forwarder_goes_on_until_it_is_ended(events.drop_last(), events.last());
    }
}

} // verus!
