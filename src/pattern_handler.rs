use crate::error::LayerError;
use crate::helper::successor;
use std::marker::PhantomData;
use vstd::prelude::*;

verus! {

/// A stateful object that messages can be sent to and received from.
pub trait ServiceHandler<Message> {
    fn send_message(&mut self, msg: Message);

    fn receive_message(&mut self) -> Message;
}

/// How the handler adapter combines the two messages it receives from the wrapped stage's
/// handler.
pub trait Combine: Sized {
    spec fn combine_spec(self, other: Self) -> Self;

    fn combine(self, other: Self) -> (r: Self)
        ensures
            r == self.combine_spec(other),
    ;
}

impl Combine for u32 {
    /// Addition, wrapping around at the type's bound.
    open spec fn combine_spec(self, other: u32) -> u32 {
        self.wrapping_add(other)
    }

    fn combine(self, other: u32) -> (r: u32) {
        self.wrapping_add(other)
    }
}

// The mediation failures of the handler adapter.

pub const OUT_OF_ORDER: &'static str = "Exchange step out of order";

pub const ALREADY_FINISHED: &'static str = "Exchange already finished";

/// Where one handler exchange stands. `ReceivingSecond` holds the first message already
/// received from the wrapped stage's handler.
#[derive(Debug)]
pub enum HandlerPhase<M> {
    ObtainingInner,
    ReceivingInput,
    SendingInner,
    ReceivingFirst,
    ReceivingSecond(M),
    SendingInput,
    Finished,
}

/// What the driver observed after the last action.
pub enum HandlerEvent<M, E> {
    /// The wrapped stage was called for a handler: `Ok` when it gave one.
    InnerObtained(Result<(), E>),
    InputReceived(M),
    InnerSent,
    InnerReceived(M),
    InputSent,
}

/// What the driver must do next. The "input" handler is the caller's, the "inner" handler
/// is the one the wrapped stage gave.
pub enum HandlerAction<M, E> {
    ObtainInner,
    ReceiveInput,
    SendInner(M),
    ReceiveInner,
    SendInput(M),
    Finish(Result<(), LayerError<E>>),
}

pub open spec fn handler_abort<M, E>() -> (HandlerPhase<M>, HandlerAction<M, E>) {
    (HandlerPhase::Finished, HandlerAction::Finish(Err(LayerError::ServiceLayerError(OUT_OF_ORDER))))
}

/// One step of a handler exchange: obtain the wrapped stage's handler, pass one message from
/// the caller's handler to it, combine the two messages it answers with, and hand the
/// combination back to the caller's handler.
pub open spec fn handler_next<M: Combine, E>(phase: HandlerPhase<M>, ev: HandlerEvent<M, E>) -> (
    HandlerPhase<M>,
    HandlerAction<M, E>,
) {
    match phase {
        HandlerPhase::ObtainingInner => match ev {
            HandlerEvent::InnerObtained(Ok(())) => (HandlerPhase::ReceivingInput, HandlerAction::ReceiveInput),
            HandlerEvent::InnerObtained(Err(e)) => (
                HandlerPhase::Finished,
                HandlerAction::Finish(Err(LayerError::InnerError(e))),
            ),
            _ => handler_abort(),
        },
        HandlerPhase::ReceivingInput => match ev {
            HandlerEvent::InputReceived(m) => (HandlerPhase::SendingInner, HandlerAction::SendInner(m)),
            _ => handler_abort(),
        },
        HandlerPhase::SendingInner => match ev {
            HandlerEvent::InnerSent => (HandlerPhase::ReceivingFirst, HandlerAction::ReceiveInner),
            _ => handler_abort(),
        },
        HandlerPhase::ReceivingFirst => match ev {
            HandlerEvent::InnerReceived(m) => (HandlerPhase::ReceivingSecond(m), HandlerAction::ReceiveInner),
            _ => handler_abort(),
        },
        HandlerPhase::ReceivingSecond(first) => match ev {
            HandlerEvent::InnerReceived(second) => (
                HandlerPhase::SendingInput,
                HandlerAction::SendInput(first.combine_spec(second)),
            ),
            _ => handler_abort(),
        },
        HandlerPhase::SendingInput => match ev {
            HandlerEvent::InputSent => (HandlerPhase::Finished, HandlerAction::Finish(Ok(()))),
            _ => handler_abort(),
        },
        HandlerPhase::Finished => (
            HandlerPhase::Finished,
            HandlerAction::Finish(Err(LayerError::ServiceLayerError(ALREADY_FINISHED))),
        ),
    }
}

/// How far an exchange is from its end, in steps.
pub open spec fn handler_rank<M>(phase: HandlerPhase<M>) -> nat {
    match phase {
        HandlerPhase::ObtainingInner => 6,
        HandlerPhase::ReceivingInput => 5,
        HandlerPhase::SendingInner => 4,
        HandlerPhase::ReceivingFirst => 3,
        HandlerPhase::ReceivingSecond(_) => 2,
        HandlerPhase::SendingInput => 1,
        HandlerPhase::Finished => 0,
    }
}

/// No exchange goes on forever: every event brings an unfinished exchange closer to its end.
pub proof fn lemma_handler_progress<M: Combine, E>(phase: HandlerPhase<M>, ev: HandlerEvent<M, E>)
    requires
        !(phase is Finished),
    ensures
        handler_rank(handler_next(phase, ev).0) < handler_rank(phase),
{
}

/// A handler exchange driven against two incrementing handlers: its phase, its pending
/// action, and the values that the caller's handler and the wrapped stage's handler hold.
pub type IncrementingRun<E> = (HandlerPhase<u32>, HandlerAction<u32, E>, u32, u32);

/// Performs the pending action on the two incrementing handlers (a send stores the message, a
/// receive hands out the value held and then increments it) and feeds the outcome to the
/// exchange.
pub open spec fn incrementing_step<E>(run: IncrementingRun<E>) -> IncrementingRun<E> {
    let (phase, action, caller, inner) = run;
    match action {
        HandlerAction::ObtainInner => {
            let (p, a) = handler_next(phase, HandlerEvent::InnerObtained(Ok(())));
            (p, a, caller, inner)
        },
        HandlerAction::ReceiveInput => {
            let (p, a) = handler_next(phase, HandlerEvent::InputReceived(caller));
            (p, a, successor(caller), inner)
        },
        HandlerAction::SendInner(m) => {
            let (p, a) = handler_next(phase, HandlerEvent::InnerSent);
            (p, a, caller, m)
        },
        HandlerAction::ReceiveInner => {
            let (p, a) = handler_next(phase, HandlerEvent::InnerReceived(inner));
            (p, a, caller, successor(inner))
        },
        HandlerAction::SendInput(m) => {
            let (p, a) = handler_next(phase, HandlerEvent::InputSent);
            (p, a, m, inner)
        },
        HandlerAction::Finish(_) => run,
    }
}

/// Driven against incrementing handlers, one call leaves the caller's handler holding
/// `v + (v + 1)` (modulo 2^32), where `v` is the value it held before; the value the wrapped
/// stage's handler started with plays no part.
pub proof fn lemma_handler_incrementing<E>(v: u32, w: u32)
    ensures
        ({
            let start: IncrementingRun<E> = (HandlerPhase::ObtainingInner, HandlerAction::ObtainInner, v, w);
            let end = incrementing_step(
                incrementing_step(incrementing_step(incrementing_step(incrementing_step(incrementing_step(start))))),
            );
            &&& end.1 == HandlerAction::<u32, E>::Finish(Ok(()))
            &&& end.2 == v.wrapping_add(successor(v))
            &&& end.2 == (2 * v + 1) % 0x1_0000_0000
        }),
{
}

/// An error of the wrapped stage, when it is asked for a handler, reaches the caller unchanged.
pub proof fn lemma_handler_inner_error_kept<M: Combine, E>(e: E)
    ensures
        handler_next(HandlerPhase::<M>::ObtainingInner, HandlerEvent::InnerObtained(Err(e))) == (
            HandlerPhase::<M>::Finished,
            HandlerAction::<M, E>::Finish(Err(LayerError::InnerError(e))),
        ),
{
}

/// The state of one call through the handler adapter.
pub struct HandlerExchange<M, E> {
    pub phase: HandlerPhase<M>,
    pub phantom_error: PhantomData<E>,
}

impl<M: Combine, E> HandlerExchange<M, E> {
    /// A fresh exchange, whose first action is to ask the wrapped stage for its handler.
    pub fn start() -> (r: (HandlerExchange<M, E>, HandlerAction<M, E>))
        ensures
            r.0.phase == HandlerPhase::<M>::ObtainingInner,
            r.1 == HandlerAction::<M, E>::ObtainInner,
    {
        (HandlerExchange { phase: HandlerPhase::ObtainingInner, phantom_error: PhantomData }, HandlerAction::ObtainInner)
    }

    /// Takes what the last action produced and decides the next action.
    pub fn on_event(self, ev: HandlerEvent<M, E>) -> (r: (HandlerExchange<M, E>, HandlerAction<M, E>))
        ensures
            (r.0.phase, r.1) == handler_next(self.phase, ev),
    {
        let (phase, action) = match self.phase {
            HandlerPhase::ObtainingInner => match ev {
                HandlerEvent::InnerObtained(Ok(())) => (HandlerPhase::ReceivingInput, HandlerAction::ReceiveInput),
                HandlerEvent::InnerObtained(Err(e)) => (
                    HandlerPhase::Finished,
                    HandlerAction::Finish(Err(LayerError::InnerError(e))),
                ),
                _ => abort(),
            },
            HandlerPhase::ReceivingInput => match ev {
                HandlerEvent::InputReceived(m) => (HandlerPhase::SendingInner, HandlerAction::SendInner(m)),
                _ => abort(),
            },
            HandlerPhase::SendingInner => match ev {
                HandlerEvent::InnerSent => (HandlerPhase::ReceivingFirst, HandlerAction::ReceiveInner),
                _ => abort(),
            },
            HandlerPhase::ReceivingFirst => match ev {
                HandlerEvent::InnerReceived(m) => (HandlerPhase::ReceivingSecond(m), HandlerAction::ReceiveInner),
                _ => abort(),
            },
            HandlerPhase::ReceivingSecond(first) => match ev {
                HandlerEvent::InnerReceived(second) => (
                    HandlerPhase::SendingInput,
                    HandlerAction::SendInput(first.combine(second)),
                ),
                _ => abort(),
            },
            HandlerPhase::SendingInput => match ev {
                HandlerEvent::InputSent => (HandlerPhase::Finished, HandlerAction::Finish(Ok(()))),
                _ => abort(),
            },
            HandlerPhase::Finished => (
                HandlerPhase::Finished,
                HandlerAction::Finish(Err(LayerError::ServiceLayerError(ALREADY_FINISHED))),
            ),
        };
        (HandlerExchange { phase, phantom_error: PhantomData }, action)
    }
}

fn abort<M, E>() -> (r: (HandlerPhase<M>, HandlerAction<M, E>))
    ensures
        r == handler_abort::<M, E>(),
{
    (HandlerPhase::Finished, HandlerAction::Finish(Err(LayerError::ServiceLayerError(OUT_OF_ORDER))))
}

/// The handler adapter around a wrapped stage `S`, which gives one handler per call.
pub struct HandlerPatternService<S, M> {
    pub inner: S,
    pub phantom_message: PhantomData<M>,
}

impl<S, M> HandlerPatternService<S, M> {
    pub fn inner_mut(&mut self) -> (r: &mut S)
        ensures
            *r == old(self).inner,
            final(self).inner == *final(r),
    {
        &mut self.inner
    }
}

/// Builds handler adapters whose handlers exchange messages of type `M`.
pub struct HandlerPatternLayer<M> {
    pub phantom_message: PhantomData<M>,
}

impl<M: Combine> HandlerPatternLayer<M> {
    pub fn new() -> (r: Self)
        ensures
            r == (HandlerPatternLayer::<M> { phantom_message: PhantomData }),
    {
        HandlerPatternLayer { phantom_message: PhantomData }
    }

    pub fn layer<S>(&self, inner: S) -> (r: HandlerPatternService<S, M>)
        ensures
            r.inner == inner,
    {
        HandlerPatternService { inner, phantom_message: PhantomData }
    }
}

} // verus!
