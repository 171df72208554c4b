use crate::error::LayerError;
use std::marker::PhantomData;
use vstd::prelude::*;
use vstd::std_specs::convert::IntoSpec;

verus! {

// The mediation failures of the typed-channel adapter.

pub const RECEIVE_INPUT_FAILED: &'static str = "Failed to receive message from input receiver";

pub const SEND_INNER_FAILED: &'static str = "Failed to send message to inner service";

pub const RECEIVE_INNER_FAILED: &'static str = "Failed to receive response from inner service";

pub const SEND_INPUT_FAILED: &'static str = "Failed to send response to caller";

pub const JOIN_FAILED: &'static str = "Failed to join inner service task";

pub const OUT_OF_ORDER: &'static str = "Exchange step out of order";

pub const ALREADY_FINISHED: &'static str = "Exchange already finished";

/// Where one message exchange stands; `Joining` remembers the first mediation failure.
#[derive(Clone, Copy, Debug)]
pub enum ChanPhase {
    ReceivingInput,
    SendingInner,
    ReceivingInner,
    SendingInput,
    Joining(Option<&'static str>),
    Finished,
}

/// What the driver observed after the last action. A receive yields `None` once every
/// sender of that channel is gone; a send yields `false` once its receiver is gone.
pub enum ChanEvent<In, Out, E> {
    InputReceived(Option<In>),
    InnerSent(bool),
    InnerReceived(Option<Out>),
    InputSent(bool),
    /// `None` when the wrapped stage's task could not be joined.
    Joined(Option<Result<(), E>>),
}

/// What the driver must do next.
pub enum ChanAction<In, Out, E> {
    ReceiveInput,
    SendInner(Out),
    ReceiveInner,
    SendInput(In),
    /// Release all four channel endpoints, then await the wrapped stage's task.
    Join,
    Finish(Result<(), LayerError<E>>),
}

pub open spec fn chan_abort<In, Out, E>(msg: &'static str) -> (ChanPhase, ChanAction<In, Out, E>) {
    (ChanPhase::Joining(Some(msg)), ChanAction::Join)
}

/// The result once the wrapped stage has been joined: its own error unchanged, otherwise the
/// first mediation failure, if any.
pub open spec fn chan_outcome<E>(failure: Option<&'static str>, joined: Option<Result<(), E>>) -> Result<(), LayerError<E>> {
    match joined {
        Some(Err(e)) => Err(LayerError::InnerError(e)),
        Some(Ok(())) => match failure {
            Some(m) => Err(LayerError::ServiceLayerError(m)),
            None => Ok(()),
        },
        None => match failure {
            Some(m) => Err(LayerError::ServiceLayerError(m)),
            None => Err(LayerError::ServiceLayerError(JOIN_FAILED)),
        },
    }
}

/// One step of a message exchange. Each message is converted as it crosses: the caller's
/// message into the wrapped stage's type, the wrapped stage's response back.
pub open spec fn chan_next<In: Into<Out>, Out: Into<In>, E>(
    phase: ChanPhase,
    ev: ChanEvent<In, Out, E>,
) -> (ChanPhase, ChanAction<In, Out, E>) {
    match phase {
        ChanPhase::ReceivingInput => match ev {
            ChanEvent::InputReceived(Some(m)) => (ChanPhase::SendingInner, ChanAction::SendInner(m.into_spec())),
            ChanEvent::InputReceived(None) => chan_abort(RECEIVE_INPUT_FAILED),
            _ => chan_abort(OUT_OF_ORDER),
        },
        ChanPhase::SendingInner => match ev {
            ChanEvent::InnerSent(ok) => if ok {
                (ChanPhase::ReceivingInner, ChanAction::ReceiveInner)
            } else {
                chan_abort(SEND_INNER_FAILED)
            },
            _ => chan_abort(OUT_OF_ORDER),
        },
        ChanPhase::ReceivingInner => match ev {
            ChanEvent::InnerReceived(Some(m)) => (ChanPhase::SendingInput, ChanAction::SendInput(m.into_spec())),
            ChanEvent::InnerReceived(None) => chan_abort(RECEIVE_INNER_FAILED),
            _ => chan_abort(OUT_OF_ORDER),
        },
        ChanPhase::SendingInput => match ev {
            ChanEvent::InputSent(ok) => if ok {
                (ChanPhase::Joining(None), ChanAction::Join)
            } else {
                chan_abort(SEND_INPUT_FAILED)
            },
            _ => chan_abort(OUT_OF_ORDER),
        },
        ChanPhase::Joining(failure) => match ev {
            ChanEvent::Joined(j) => (ChanPhase::Finished, ChanAction::Finish(chan_outcome(failure, j))),
            _ => (ChanPhase::Joining(failure), ChanAction::Join),
        },
        ChanPhase::Finished => (
            ChanPhase::Finished,
            ChanAction::Finish(Err(LayerError::ServiceLayerError(ALREADY_FINISHED))),
        ),
    }
}

/// How far an exchange is from its end, in steps.
pub open spec fn chan_rank(phase: ChanPhase) -> nat {
    match phase {
        ChanPhase::ReceivingInput => 5,
        ChanPhase::SendingInner => 4,
        ChanPhase::ReceivingInner => 3,
        ChanPhase::SendingInput => 2,
        ChanPhase::Joining(_) => 1,
        ChanPhase::Finished => 0,
    }
}

/// No exchange goes on forever: every event brings an unfinished exchange closer to its end,
/// except an event other than the join's outcome while the exchange waits for the join.
pub proof fn lemma_chan_progress<In: Into<Out>, Out: Into<In>, E>(phase: ChanPhase, ev: ChanEvent<In, Out, E>)
    requires
        !(phase is Finished),
        phase is Joining ==> ev is Joined,
    ensures
        chan_rank(chan_next(phase, ev).0) < chan_rank(phase),
{
}

/// The wrapped stage receives the caller's message converted to its type, and the caller
/// receives the wrapped stage's response converted back.
pub proof fn lemma_chan_round_trip<In: Into<Out>, Out: Into<In>, E>(m: In, r: Out)
    ensures
        ({
            let (phase1, a1) = chan_next::<In, Out, E>(ChanPhase::ReceivingInput, ChanEvent::InputReceived(Some(m)));
            let (phase2, a2) = chan_next::<In, Out, E>(phase1, ChanEvent::InnerSent(true));
            let (phase3, a3) = chan_next::<In, Out, E>(phase2, ChanEvent::InnerReceived(Some(r)));
            let (phase4, a4) = chan_next::<In, Out, E>(phase3, ChanEvent::InputSent(true));
            let (phase5, a5) = chan_next::<In, Out, E>(phase4, ChanEvent::Joined(Some(Ok(()))));
            &&& a1 == ChanAction::<In, Out, E>::SendInner(m.into_spec())
            &&& a2 == ChanAction::<In, Out, E>::ReceiveInner
            &&& a3 == ChanAction::<In, Out, E>::SendInput(r.into_spec())
            &&& a4 == ChanAction::<In, Out, E>::Join
            &&& a5 == ChanAction::<In, Out, E>::Finish(Ok(()))
            &&& phase5 == ChanPhase::Finished
        }),
{
}

/// A channel whose other end is gone before its message arrives makes the exchange join the
/// wrapped stage and then fail with a mediation failure, unless the wrapped stage itself failed.
pub proof fn lemma_chan_closed_endpoint<In: Into<Out>, Out: Into<In>, E>(joined: Option<Result<(), E>>)
    requires
        !(joined matches Some(Err(_))),
    ensures
        chan_next::<In, Out, E>(ChanPhase::ReceivingInput, ChanEvent::InputReceived(None)) == chan_abort::<
            In,
            Out,
            E,
        >(RECEIVE_INPUT_FAILED),
        chan_next::<In, Out, E>(ChanPhase::ReceivingInner, ChanEvent::InnerReceived(None)) == chan_abort::<
            In,
            Out,
            E,
        >(RECEIVE_INNER_FAILED),
        chan_next::<In, Out, E>(ChanPhase::SendingInner, ChanEvent::InnerSent(false)) == chan_abort::<
            In,
            Out,
            E,
        >(SEND_INNER_FAILED),
        chan_next::<In, Out, E>(ChanPhase::SendingInput, ChanEvent::InputSent(false)) == chan_abort::<
            In,
            Out,
            E,
        >(SEND_INPUT_FAILED),
        forall|m: &'static str|
            #[trigger] chan_next::<In, Out, E>(ChanPhase::Joining(Some(m)), ChanEvent::Joined(joined)) == (
                ChanPhase::Finished,
                ChanAction::<In, Out, E>::Finish(Err(LayerError::ServiceLayerError(m))),
            ),
{
}

/// An error of the wrapped stage reaches the caller unchanged, whatever else went wrong.
pub proof fn lemma_chan_inner_error_kept<In: Into<Out>, Out: Into<In>, E>(failure: Option<&'static str>, e: E)
    ensures
        chan_next::<In, Out, E>(ChanPhase::Joining(failure), ChanEvent::Joined(Some(Err(e)))) == (
            ChanPhase::Finished,
            ChanAction::<In, Out, E>::Finish(Err(LayerError::InnerError(e))),
        ),
{
}

/// The state of one call through the typed-channel adapter.
pub struct ChanExchange<In, Out, E> {
    pub phase: ChanPhase,
    pub phantom: PhantomData<(In, Out, E)>,
}

impl<In: Into<Out>, Out: Into<In>, E> ChanExchange<In, Out, E> {
    /// A fresh exchange, whose first action is to receive from the caller's channel.
    pub fn start() -> (r: (ChanExchange<In, Out, E>, ChanAction<In, Out, E>))
        ensures
            r.0.phase == ChanPhase::ReceivingInput,
            r.1 == ChanAction::<In, Out, E>::ReceiveInput,
    {
        (ChanExchange { phase: ChanPhase::ReceivingInput, phantom: PhantomData }, ChanAction::ReceiveInput)
    }

    /// Takes what the last action produced and decides the next action.
    pub fn on_event(self, ev: ChanEvent<In, Out, E>) -> (r: (ChanExchange<In, Out, E>, ChanAction<In, Out, E>))
        ensures
            In::obeys_into_spec() && Out::obeys_into_spec() ==> (r.0.phase, r.1) == chan_next(self.phase, ev),
            r.0.phase == chan_next(self.phase, ev).0,
    {
        let (phase, action) = match self.phase {
            ChanPhase::ReceivingInput => match ev {
                ChanEvent::InputReceived(Some(m)) => (ChanPhase::SendingInner, ChanAction::SendInner(m.into())),
                ChanEvent::InputReceived(None) => abort(RECEIVE_INPUT_FAILED),
                _ => abort(OUT_OF_ORDER),
            },
            ChanPhase::SendingInner => match ev {
                ChanEvent::InnerSent(true) => (ChanPhase::ReceivingInner, ChanAction::ReceiveInner),
                ChanEvent::InnerSent(false) => abort(SEND_INNER_FAILED),
                _ => abort(OUT_OF_ORDER),
            },
            ChanPhase::ReceivingInner => match ev {
                ChanEvent::InnerReceived(Some(m)) => (ChanPhase::SendingInput, ChanAction::SendInput(m.into())),
                ChanEvent::InnerReceived(None) => abort(RECEIVE_INNER_FAILED),
                _ => abort(OUT_OF_ORDER),
            },
            ChanPhase::SendingInput => match ev {
                ChanEvent::InputSent(true) => (ChanPhase::Joining(None), ChanAction::Join),
                ChanEvent::InputSent(false) => abort(SEND_INPUT_FAILED),
                _ => abort(OUT_OF_ORDER),
            },
            ChanPhase::Joining(failure) => match ev {
                ChanEvent::Joined(j) => {
                    let outcome = match j {
                        Some(Err(e)) => Err(LayerError::InnerError(e)),
                        Some(Ok(())) => match failure {
                            Some(m) => Err(LayerError::ServiceLayerError(m)),
                            None => Ok(()),
                        },
                        None => match failure {
                            Some(m) => Err(LayerError::ServiceLayerError(m)),
                            None => Err(LayerError::ServiceLayerError(JOIN_FAILED)),
                        },
                    };
                    (ChanPhase::Finished, ChanAction::Finish(outcome))
                },
                _ => (ChanPhase::Joining(failure), ChanAction::Join),
            },
            ChanPhase::Finished => (
                ChanPhase::Finished,
                ChanAction::Finish(Err(LayerError::ServiceLayerError(ALREADY_FINISHED))),
            ),
        };
        (ChanExchange { phase, phantom: PhantomData }, action)
    }
}

fn abort<In, Out, E>(msg: &'static str) -> (r: (ChanPhase, ChanAction<In, Out, E>))
    ensures
        r == chan_abort::<In, Out, E>(msg),
{
    (ChanPhase::Joining(Some(msg)), ChanAction::Join)
}

/// The typed-channel adapter around a wrapped stage `S`, which talks in messages of type `Out`.
pub struct ChannelPatternService<S, Out> {
    pub inner: S,
    pub phantom_output: PhantomData<Out>,
}

impl<S, Out> ChannelPatternService<S, Out> {
    pub fn inner_mut(&mut self) -> (r: &mut S)
        ensures
            *r == old(self).inner,
            final(self).inner == *final(r),
    {
        &mut self.inner
    }
}

/// Builds typed-channel adapters whose wrapped stage talks in messages of type `Out`.
pub struct ChannelPatternLayer<Out> {
    pub phantom_output: PhantomData<Out>,
}

impl<Out> ChannelPatternLayer<Out> {
    pub fn new() -> (r: Self) {
        ChannelPatternLayer { phantom_output: PhantomData }
    }

    pub fn layer<S>(&self, inner: S) -> (r: ChannelPatternService<S, Out>)
        ensures
            r.inner == inner,
    {
        ChannelPatternService { inner, phantom_output: PhantomData }
    }
}

} // verus!
