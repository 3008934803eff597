//! Guards over what a dispatch holds until it ends: its place in the inflight gauge and
//! its registered streams.

use vstd::prelude::*;

verus! {

/// Keeps one unit of the inflight gauge. Dropped while armed, it gives the unit back.
#[derive(Debug)]
pub struct InflightGuard {
    armed: bool,
}

impl InflightGuard {
    pub closed spec fn armed(&self) -> bool {
        self.armed
    }

    /// A guard over a unit that has just been taken.
    pub fn new() -> (guard: InflightGuard)
        ensures
            guard.armed(),
    {
        InflightGuard { armed: true }
    }

    /// Lets go of the unit without giving it back: whoever calls this answers for it now.
    pub fn disarm(&mut self)
        ensures
            !final(self).armed(),
    {
        self.armed = false;
    }

    /// Moves the unit, if the guard has it, into a guard of its own.
    pub fn hand_over(&mut self) -> (guard: InflightGuard)
        ensures
            guard.armed() == old(self).armed(),
            !final(self).armed(),
    {
        let guard = InflightGuard { armed: self.armed };
        self.disarm();
        guard
    }

    /// What the drop of the guard does: whether the gauge goes down by one.
    pub fn decrements_on_drop(&self) -> (decrements: bool)
        ensures
            decrements == self.armed(),
    {
        self.armed
    }
}

/// The cancellation of one half of a stream registration.
#[derive(Debug)]
pub enum Cancellation {
    /// Of the half on which the worker answers.
    Recv(String),
    /// Of the half on which the worker is fed.
    Send(String),
}

/// The plain value of a [`Cancellation`].
pub enum CancellationView {
    Recv(Seq<char>),
    Send(Seq<char>),
}

impl View for Cancellation {
    type V = CancellationView;

    open spec fn view(&self) -> CancellationView {
        match self {
            Cancellation::Recv(subject) => CancellationView::Recv(subject@),
            Cancellation::Send(subject) => CancellationView::Send(subject@),
        }
    }
}

/// The plain values of a list of cancellations.
pub open spec fn plan_of(plan: Seq<Cancellation>) -> Seq<CancellationView> {
    plan.map_values(|c: Cancellation| c@)
}

/// The cancellations that a registration calls for: the receiving half, then the sending
/// half, each where it has a subject.
pub open spec fn cancellations(
    recv_subject: Option<Seq<char>>,
    send_subject: Option<Seq<char>>,
) -> Seq<CancellationView> {
    let recv = match recv_subject {
        Some(subject) => seq![CancellationView::Recv(subject)],
        None => seq![],
    };
    let send = match send_subject {
        Some(subject) => seq![CancellationView::Send(subject)],
        None => seq![],
    };
    recv + send
}

/// Plans the cancellation of both halves of a registration, the receiving one first.
pub fn cancel_both(recv_subject: Option<String>, send_subject: Option<String>) -> (plan: Vec<
    Cancellation,
>)
    ensures
        plan_of(plan@) == cancellations(
            crate::text::text_of(recv_subject),
            crate::text::text_of(send_subject),
        ),
{
    let mut plan: Vec<Cancellation> = Vec::new();
    if let Some(subject) = recv_subject {
        plan.push(Cancellation::Recv(subject));
    }
    if let Some(subject) = send_subject {
        plan.push(Cancellation::Send(subject));
    }
    proof {
        assert(plan_of(plan@) =~= cancellations(
            crate::text::text_of(recv_subject),
            crate::text::text_of(send_subject),
        ));
    }
    plan
}

/// Keeps the registered streams of a dispatch. Dropped while armed, it has both halves
/// cancelled.
#[derive(Debug)]
pub struct CancelGuard {
    armed: bool,
    recv_subject: Option<String>,
    send_subject: Option<String>,
}

/// The plain value of a [`CancelGuard`].
pub struct CancelGuardView {
    pub armed: bool,
    pub recv_subject: Option<Seq<char>>,
    pub send_subject: Option<Seq<char>>,
}

impl View for CancelGuard {
    type V = CancelGuardView;

    closed spec fn view(&self) -> CancelGuardView {
        CancelGuardView {
            armed: self.armed,
            recv_subject: crate::text::text_of(self.recv_subject),
            send_subject: crate::text::text_of(self.send_subject),
        }
    }
}

impl CancelGuardView {
    /// What dropping the guard cancels.
    pub open spec fn on_drop(self) -> Seq<CancellationView> {
        if self.armed {
            cancellations(self.recv_subject, self.send_subject)
        } else {
            seq![]
        }
    }
}

impl CancelGuard {
    /// A guard over a registration with these subjects.
    pub fn arm(recv_subject: Option<String>, send_subject: Option<String>) -> (guard: CancelGuard)
        ensures
            guard@ == (CancelGuardView {
                armed: true,
                recv_subject: crate::text::text_of(recv_subject),
                send_subject: crate::text::text_of(send_subject),
            }),
    {
        CancelGuard { armed: true, recv_subject, send_subject }
    }

    /// Whether the guard still holds its registration.
    pub fn is_armed(&self) -> (armed: bool)
        ensures
            armed == self@.armed,
    {
        self.armed
    }

    /// Lets go of the registration without cancelling it.
    pub fn disarm(&mut self)
        ensures
            final(self)@ == (CancelGuardView { armed: false, ..old(self)@ }),
    {
        self.armed = false;
    }

    /// What the drop of the guard does: the cancellations to run, in order. An armed guard
    /// gives its subjects up, so that they are cancelled once.
    pub fn on_drop(&mut self) -> (plan: Vec<Cancellation>)
        ensures
            plan_of(plan@) == old(self)@.on_drop(),
            final(self)@.on_drop() == Seq::<CancellationView>::empty(),
            final(self)@.armed == old(self)@.armed,
    {
        if !self.armed {
            let plan: Vec<Cancellation> = Vec::new();
            proof {
                assert(plan_of(plan@) =~= seq![]);
            }
            return plan;
        }
        let recv = self.recv_subject.take();
        let send = self.send_subject.take();
        proof {
            assert(self@.on_drop() =~= seq![]);
        }
        cancel_both(recv, send)
    }
}

/// A registration is cancelled half by half: first the receiving half, if it has a subject,
/// then the sending half, if it has one, each under its own subject, and nothing else is.
pub proof fn law_each_half_is_cancelled_under_its_subject(
    recv_subject: Option<Seq<char>>,
    send_subject: Option<Seq<char>>,
)
    ensures
        ({
            let plan = cancellations(recv_subject, send_subject);
            &&& recv_subject is Some && send_subject is Some ==> plan.len() == 2
            &&& recv_subject is Some <==> plan.len() > 0 && plan.first() is Recv
            &&& recv_subject is Some ==> plan.first() == CancellationView::Recv(recv_subject->0)
            &&& send_subject is Some <==> plan.len() > 0 && plan.last() is Send
            &&& send_subject is Some ==> plan.last() == CancellationView::Send(send_subject->0)
            &&& recv_subject is None || send_subject is None ==> plan.len() <= 1
        }),
{
}

/// An armed guard has the streams that it holds cancelled when it is dropped, both halves of
/// them; one that has been disarmed has nothing cancelled.
pub proof fn law_only_an_armed_guard_cancels(guard: CancelGuardView)
    ensures
        !guard.armed ==> guard.on_drop().len() == 0,
        guard.armed ==> {
            &&& guard.recv_subject is Some <==> guard.on_drop().len() > 0
                && guard.on_drop().first() is Recv
            &&& guard.recv_subject is Some ==> guard.on_drop().first() == CancellationView::Recv(
                guard.recv_subject->0,
            )
            &&& guard.send_subject is Some <==> guard.on_drop().len() > 0
                && guard.on_drop().last() is Send
            &&& guard.send_subject is Some ==> guard.on_drop().last() == CancellationView::Send(
                guard.send_subject->0,
            )
            &&& guard.on_drop().len() <= 2
            &&& guard.recv_subject is None || guard.send_subject is None ==> guard.on_drop().len()
                <= 1
        },
{
}

} // verus!
