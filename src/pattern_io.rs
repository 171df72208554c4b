use crate::error::LayerError;
use crate::pattern_chan::{chan_next, ChanAction, ChanEvent, ChanPhase};
use std::marker::PhantomData;
use vstd::prelude::*;

verus! {

/// The largest chunk read in one step from either side of the byte bridge.
pub const MAX_BUF_SIZE: usize = 1024;

// The mediation failures of the stream adapter.

pub const READ_INPUT_FAILED: &'static str = "Failed to read from input reader";

pub const WRITE_INNER_FAILED: &'static str = "Failed to write to inner service";

pub const READ_INNER_FAILED: &'static str = "Failed to read from inner service";

pub const WRITE_INPUT_FAILED: &'static str = "Failed to write to input writer";

pub const JOIN_FAILED: &'static str = "Task failed";

pub const OUT_OF_ORDER: &'static str = "Exchange step out of order";

pub const ALREADY_FINISHED: &'static str = "Exchange already finished";

/// Where one byte exchange stands. `Joining` remembers the first mediation failure, if any,
/// so that it can be reported once the wrapped stage has been joined.
#[derive(Clone, Copy, Debug)]
pub enum IoPhase {
    ReadingInput,
    WritingInner,
    ReadingInner,
    WritingInput,
    Joining(Option<&'static str>),
    Finished,
}

/// What the driver of an exchange observed after performing the last action.
/// A read yields `None` when it failed, and an empty chunk when the peer closed.
pub enum IoEvent<E> {
    InputRead(Option<Vec<u8>>),
    InnerWritten(bool),
    InnerRead(Option<Vec<u8>>),
    InputWritten(bool),
    /// `None` when the wrapped stage's task could not be joined.
    Joined(Option<Result<(), E>>),
}

/// What the driver of an exchange must do next.
pub enum IoAction<E> {
    ReadInput,
    WriteInner(Vec<u8>),
    ReadInner,
    WriteInput(Vec<u8>),
    /// Release all four endpoints, then await the wrapped stage's task.
    Join,
    Finish(Result<(), LayerError<E>>),
}

/// An event with its chunks seen as sequences of bytes.
pub enum IoEventView<E> {
    InputRead(Option<Seq<u8>>),
    InnerWritten(bool),
    InnerRead(Option<Seq<u8>>),
    InputWritten(bool),
    Joined(Option<Result<(), E>>),
}

/// An action with its chunks seen as sequences of bytes.
pub enum IoActionView<E> {
    ReadInput,
    WriteInner(Seq<u8>),
    ReadInner,
    WriteInput(Seq<u8>),
    Join,
    Finish(Result<(), LayerError<E>>),
}

/// A chunk seen as a sequence of bytes.
pub open spec fn chunk_view(c: Option<Vec<u8>>) -> Option<Seq<u8>> {
    match c {
        Some(b) => Some(b@),
        None => None,
    }
}

impl<E> View for IoEvent<E> {
    type V = IoEventView<E>;

    open spec fn view(&self) -> IoEventView<E> {
        match *self {
            IoEvent::InputRead(c) => IoEventView::InputRead(chunk_view(c)),
            IoEvent::InnerWritten(ok) => IoEventView::InnerWritten(ok),
            IoEvent::InnerRead(c) => IoEventView::InnerRead(chunk_view(c)),
            IoEvent::InputWritten(ok) => IoEventView::InputWritten(ok),
            IoEvent::Joined(j) => IoEventView::Joined(j),
        }
    }
}

impl<E> View for IoAction<E> {
    type V = IoActionView<E>;

    open spec fn view(&self) -> IoActionView<E> {
        match *self {
            IoAction::ReadInput => IoActionView::ReadInput,
            IoAction::WriteInner(b) => IoActionView::WriteInner(b@),
            IoAction::ReadInner => IoActionView::ReadInner,
            IoAction::WriteInput(b) => IoActionView::WriteInput(b@),
            IoAction::Join => IoActionView::Join,
            IoAction::Finish(r) => IoActionView::Finish(r),
        }
    }
}

/// A chunk that carries data: one that was read and is not empty.
pub open spec fn has_data(c: Option<Seq<u8>>) -> bool {
    c is Some && c->Some_0.len() > 0
}

/// After a mediation failure the exchange still joins the wrapped stage before it finishes.
pub open spec fn io_abort<E>(msg: &'static str) -> (IoPhase, IoActionView<E>) {
    (IoPhase::Joining(Some(msg)), IoActionView::Join)
}

/// The result of an exchange once the wrapped stage has been joined. An error of the wrapped
/// stage is reported unchanged; otherwise the first mediation failure, if any.
pub open spec fn io_outcome<E>(failure: Option<&'static str>, joined: Option<Result<(), E>>) -> Result<(), LayerError<E>> {
    match joined {
        Some(Err(e)) => Err(LayerError::InnerError(e)),
        Some(Ok(())) => match failure {
            Some(m) => Err(LayerError::ServiceLayerError(m)),
            None => Ok(()),
        },
        None => match failure {
            Some(m) => Err(LayerError::ServiceLayerError(m)),
            None => Err(LayerError::ServiceLayerError(JOIN_FAILED)),
        },
    }
}

/// One step of a byte exchange: the next phase and the action that goes with it.
pub open spec fn io_next<E>(phase: IoPhase, ev: IoEventView<E>) -> (IoPhase, IoActionView<E>) {
    match phase {
        IoPhase::ReadingInput => match ev {
            IoEventView::InputRead(c) => if has_data(c) {
                (IoPhase::WritingInner, IoActionView::WriteInner(c->Some_0.reverse()))
            } else {
                io_abort(READ_INPUT_FAILED)
            },
            _ => io_abort(OUT_OF_ORDER),
        },
        IoPhase::WritingInner => match ev {
            IoEventView::InnerWritten(ok) => if ok {
                (IoPhase::ReadingInner, IoActionView::ReadInner)
            } else {
                io_abort(WRITE_INNER_FAILED)
            },
            _ => io_abort(OUT_OF_ORDER),
        },
        IoPhase::ReadingInner => match ev {
            IoEventView::InnerRead(c) => if has_data(c) {
                (IoPhase::WritingInput, IoActionView::WriteInput(c->Some_0.reverse()))
            } else {
                io_abort(READ_INNER_FAILED)
            },
            _ => io_abort(OUT_OF_ORDER),
        },
        IoPhase::WritingInput => match ev {
            IoEventView::InputWritten(ok) => if ok {
                (IoPhase::Joining(None), IoActionView::Join)
            } else {
                io_abort(WRITE_INPUT_FAILED)
            },
            _ => io_abort(OUT_OF_ORDER),
        },
        IoPhase::Joining(failure) => match ev {
            IoEventView::Joined(j) => (IoPhase::Finished, IoActionView::Finish(io_outcome(failure, j))),
            _ => (IoPhase::Joining(failure), IoActionView::Join),
        },
        IoPhase::Finished => (
            IoPhase::Finished,
            IoActionView::Finish(Err(LayerError::ServiceLayerError(ALREADY_FINISHED))),
        ),
    }
}

/// How far an exchange is from its end, in steps.
pub open spec fn io_rank(phase: IoPhase) -> nat {
    match phase {
        IoPhase::ReadingInput => 5,
        IoPhase::WritingInner => 4,
        IoPhase::ReadingInner => 3,
        IoPhase::WritingInput => 2,
        IoPhase::Joining(_) => 1,
        IoPhase::Finished => 0,
    }
}

/// No exchange goes on forever: every event brings an unfinished exchange closer to its end,
/// except an event other than the join's outcome while the exchange waits for the join.
pub proof fn lemma_io_progress<E>(phase: IoPhase, ev: IoEventView<E>)
    requires
        !(phase is Finished),
        phase is Joining ==> ev is Joined,
    ensures
        io_rank(io_next(phase, ev).0) < io_rank(phase),
{
}

/// A caller's bytes reach the wrapped stage reversed, and the wrapped stage's bytes reach the
/// caller reversed; so a wrapped stage that echoes what it got gives the caller its own bytes.
pub proof fn lemma_io_round_trip<E>(b: Seq<u8>, r: Seq<u8>)
    requires
        b.len() > 0,
        r.len() > 0,
    ensures
        ({
            let (phase1, a1) = io_next::<E>(IoPhase::ReadingInput, IoEventView::InputRead(Some(b)));
            let (phase2, a2) = io_next::<E>(phase1, IoEventView::InnerWritten(true));
            let (phase3, a3) = io_next::<E>(phase2, IoEventView::InnerRead(Some(r)));
            let (phase4, a4) = io_next::<E>(phase3, IoEventView::InputWritten(true));
            let (phase5, a5) = io_next::<E>(phase4, IoEventView::Joined(Some(Ok(()))));
            &&& a1 == IoActionView::<E>::WriteInner(b.reverse())
            &&& a2 == IoActionView::<E>::ReadInner
            &&& a3 == IoActionView::<E>::WriteInput(r.reverse())
            &&& a4 == IoActionView::<E>::Join
            &&& a5 == IoActionView::<E>::Finish(Ok(()))
            &&& phase5 == IoPhase::Finished
        }),
        r == b.reverse() ==> r.reverse() == b,
{
    assert(b.reverse().reverse() =~= b);
}

/// A side that closes, or fails, before its data arrives makes the exchange join the wrapped
/// stage and then fail with a mediation failure, unless the wrapped stage itself failed.
pub proof fn lemma_io_closed_endpoint<E>(c: Option<Seq<u8>>, joined: Option<Result<(), E>>)
    requires
        !has_data(c),
        !(joined matches Some(Err(_))),
    ensures
        io_next::<E>(IoPhase::ReadingInput, IoEventView::InputRead(c)) == io_abort::<E>(READ_INPUT_FAILED),
        io_next::<E>(IoPhase::ReadingInner, IoEventView::InnerRead(c)) == io_abort::<E>(READ_INNER_FAILED),
        io_next::<E>(IoPhase::WritingInner, IoEventView::InnerWritten(false)) == io_abort::<E>(WRITE_INNER_FAILED),
        io_next::<E>(IoPhase::WritingInput, IoEventView::InputWritten(false)) == io_abort::<E>(WRITE_INPUT_FAILED),
        forall|m: &'static str|
            #[trigger] io_next::<E>(IoPhase::Joining(Some(m)), IoEventView::Joined(joined)) == (
                IoPhase::Finished,
                IoActionView::<E>::Finish(Err(LayerError::ServiceLayerError(m))),
            ),
{
}

/// An error of the wrapped stage reaches the caller unchanged, whatever else went wrong.
pub proof fn lemma_io_inner_error_kept<E>(failure: Option<&'static str>, e: E)
    ensures
        io_next(IoPhase::Joining(failure), IoEventView::Joined(Some(Err(e)))) == (
            IoPhase::Finished,
            IoActionView::Finish(Err(LayerError::InnerError(e))),
        ),
{
}

/// Stacked adapters keep a wrapped stage's error: a stream adapter whose wrapped stage is a
/// typed-channel adapter, whose own wrapped stage failed with `e`, fails with `e` wrapped once
/// per adapter.
pub proof fn lemma_stacked_inner_error_kept<In: Into<Out>, Out: Into<In>, E>(
    inner_failure: Option<&'static str>,
    outer_failure: Option<&'static str>,
    e: E,
)
    ensures
        ({
            let (_, inner_action) = chan_next::<In, Out, E>(ChanPhase::Joining(inner_failure), ChanEvent::Joined(Some(Err(e))));
            &&& inner_action == ChanAction::<In, Out, E>::Finish(Err(LayerError::InnerError(e)))
            &&& io_next(IoPhase::Joining(outer_failure), IoEventView::Joined(Some(Err(LayerError::InnerError(e)))))
                == (
                IoPhase::Finished,
                IoActionView::Finish(Err(LayerError::InnerError(LayerError::InnerError(e)))),
            )
        }),
{
}

/// Bytes in reverse order: the transform applied to every chunk that crosses the bridge.
pub fn reverse_bytes(b: &[u8]) -> (r: Vec<u8>)
    ensures
        r@ == b@.reverse(),
{
    let n = b.len();
    let mut r: Vec<u8> = Vec::new();
    let mut i: usize = n;
    while i > 0
        invariant
            n == b@.len(),
            i <= n,
            r@.len() == n - i,
            forall|j: int| 0 <= j < r@.len() ==> r@[j] == b@[n - 1 - j],
        decreases i,
    {
        i = i - 1;
        r.push(b[i]);
    }
    assert(r@ =~= b@.reverse());
    r
}

/// The state of one call through the stream adapter.
pub struct IoExchange<E> {
    pub phase: IoPhase,
    pub phantom_error: PhantomData<E>,
}

impl<E> IoExchange<E> {
    /// A fresh exchange, whose first action is to read from the caller's side.
    pub fn start() -> (r: (IoExchange<E>, IoAction<E>))
        ensures
            r.0.phase == IoPhase::ReadingInput,
            r.1@ == IoActionView::<E>::ReadInput,
    {
        (IoExchange { phase: IoPhase::ReadingInput, phantom_error: PhantomData }, IoAction::ReadInput)
    }

    /// Takes what the last action produced and decides the next action.
    pub fn on_event(self, ev: IoEvent<E>) -> (r: (IoExchange<E>, IoAction<E>))
        ensures
            (r.0.phase, r.1@) == io_next(self.phase, ev@),
    {
        let (phase, action) = match self.phase {
            IoPhase::ReadingInput => match ev {
                IoEvent::InputRead(Some(b)) if b.len() > 0 => (
                    IoPhase::WritingInner,
                    IoAction::WriteInner(reverse_bytes(b.as_slice())),
                ),
                IoEvent::InputRead(_) => abort(READ_INPUT_FAILED),
                _ => abort(OUT_OF_ORDER),
            },
            IoPhase::WritingInner => match ev {
                IoEvent::InnerWritten(true) => (IoPhase::ReadingInner, IoAction::ReadInner),
                IoEvent::InnerWritten(false) => abort(WRITE_INNER_FAILED),
                _ => abort(OUT_OF_ORDER),
            },
            IoPhase::ReadingInner => match ev {
                IoEvent::InnerRead(Some(b)) if b.len() > 0 => (
                    IoPhase::WritingInput,
                    IoAction::WriteInput(reverse_bytes(b.as_slice())),
                ),
                IoEvent::InnerRead(_) => abort(READ_INNER_FAILED),
                _ => abort(OUT_OF_ORDER),
            },
            IoPhase::WritingInput => match ev {
                IoEvent::InputWritten(true) => (IoPhase::Joining(None), IoAction::Join),
                IoEvent::InputWritten(false) => abort(WRITE_INPUT_FAILED),
                _ => abort(OUT_OF_ORDER),
            },
            IoPhase::Joining(failure) => match ev {
                IoEvent::Joined(j) => {
                    let outcome = match j {
                        Some(Err(e)) => Err(LayerError::InnerError(e)),
                        Some(Ok(())) => match failure {
                            Some(m) => Err(LayerError::ServiceLayerError(m)),
                            None => Ok(()),
                        },
                        None => match failure {
                            Some(m) => Err(LayerError::ServiceLayerError(m)),
                            None => Err(LayerError::ServiceLayerError(JOIN_FAILED)),
                        },
                    };
                    (IoPhase::Finished, IoAction::Finish(outcome))
                },
                _ => (IoPhase::Joining(failure), IoAction::Join),
            },
            IoPhase::Finished => (
                IoPhase::Finished,
                IoAction::Finish(Err(LayerError::ServiceLayerError(ALREADY_FINISHED))),
            ),
        };
        (IoExchange { phase, phantom_error: PhantomData }, action)
    }
}

fn abort<E>(msg: &'static str) -> (r: (IoPhase, IoAction<E>))
    ensures
        (r.0, r.1@) == io_abort::<E>(msg),
{
    (IoPhase::Joining(Some(msg)), IoAction::Join)
}

/// The stream adapter around a wrapped stage `S`.
pub struct IoTowerService<S> {
    pub inner: S,
}

impl<S> IoTowerService<S> {
    pub fn inner_mut(&mut self) -> (r: &mut S)
        ensures
            *r == old(self).inner,
            final(self).inner == *final(r),
    {
        &mut self.inner
    }
}

/// Builds stream adapters.
#[derive(Default)]
pub struct IoTowerLayer {}

impl IoTowerLayer {
    pub fn layer<S>(&self, inner: S) -> (r: IoTowerService<S>)
        ensures
            r.inner == inner,
    {
        IoTowerService { inner }
    }
}

} // verus!
