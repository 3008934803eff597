//! The ownership cell of a request stream.

use vstd::prelude::*;

verus! {

/// Holds the stream of a streaming request until its one consumer takes it.
///
/// A caller that shares the cell between threads puts it behind a lock; whoever takes
/// first owns the stream.
pub struct RequestStream<T> {
    inner: Option<T>,
}

/// One take on a cell that holds `cell`: what it hands out, and what the cell holds then.
pub open spec fn take_step<T>(cell: Option<T>) -> (Option<T>, Option<T>) {
    (cell, None)
}

/// How a cell is shown to whoever debugs: whether its stream has been taken.
pub open spec fn shown(taken: bool) -> Seq<char> {
    if taken {
        "RequestStream { taken: true }"@
    } else {
        "RequestStream { taken: false }"@
    }
}

/// The text that shows a cell whose stream has been taken, or has not. A cell that cannot
/// be looked into is shown as taken.
pub fn debug_text(taken: Option<bool>) -> (text: String)
    ensures
        text@ == shown(taken != Some(false)),
        taken == Some(false) ==> text@ == "RequestStream { taken: false }"@,
        taken != Some(false) ==> text@ == "RequestStream { taken: true }"@,
{
    match taken {
        Some(false) => "RequestStream { taken: false }".to_string(),
        _ => "RequestStream { taken: true }".to_string(),
    }
}

impl<T> View for RequestStream<T> {
    type V = Option<T>;

    closed spec fn view(&self) -> Option<T> {
        self.inner
    }
}

impl<T> RequestStream<T> {
    /// Puts a stream into a cell.
    pub fn new(stream: T) -> (cell: RequestStream<T>)
        ensures
            cell@ == Some(stream),
    {
        RequestStream { inner: Some(stream) }
    }

    /// Moves the stream out. The cell keeps nothing, so every later call returns `None`.
    pub fn take(&mut self) -> (stream: Option<T>)
        ensures
            (stream, final(self)@) == take_step(old(self)@),
            stream == old(self)@,
            final(self)@ is None,
    {
        self.inner.take()
    }

    /// Whether the stream has been taken.
    pub fn is_taken(&self) -> (taken: bool)
        ensures
            taken == (self@ is None),
    {
        self.inner.is_none()
    }

    /// The text that shows the cell: whether its stream has been taken.
    pub fn to_debug_string(&self) -> (text: String)
        ensures
            text@ == shown(self@ is None),
            self@ is None ==> text@ == "RequestStream { taken: true }"@,
            self@ is Some ==> text@ == "RequestStream { taken: false }"@,
    {
        debug_text(Some(self.is_taken()))
    }
}

/// What `n` takes in a row hand out of a cell that holds `cell`.
pub open spec fn takes<T>(cell: Option<T>, n: nat) -> Seq<Option<T>>
    decreases n,
{
    if n == 0 {
        seq![]
    } else {
        seq![take_step(cell).0] + takes(take_step(cell).1, (n - 1) as nat)
    }
}

/// However many takes are made on a cell, the first one gets the stream and no other does.
pub proof fn law_stream_is_taken_once<T>(stream: T, n: nat, i: int)
    requires
        0 <= i < n,
    ensures
        takes(Some(stream), n).len() == n,
        takes(Some(stream), n)[i] == (if i == 0 {
            Some(stream)
        } else {
            None
        }),
{
    lemma_takes_of_empty_cell::<T>((n - 1) as nat);
}

proof fn lemma_takes_of_empty_cell<T>(n: nat)
    ensures
        takes::<T>(None, n).len() == n,
        forall|i: int| 0 <= i < n ==> (#[trigger] takes::<T>(None, n)[i]) is None,
    decreases n,
{
    if n > 0 {
        lemma_takes_of_empty_cell::<T>((n - 1) as nat);
    }
}

} // verus!
