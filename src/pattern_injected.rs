use crate::error::LayerError;
use crate::helper::successor;
use std::marker::PhantomData;
use vstd::prelude::*;

verus! {

// The mediation failures of the injected-handler adapter.

pub const OUT_OF_ORDER: &'static str = "Exchange step out of order";

pub const ALREADY_FINISHED: &'static str = "Exchange already finished";

/// Where one call through the injected-handler adapter stands.
#[derive(Clone, Copy, Debug)]
pub enum InjectedPhase {
    SendingRequest,
    ReceivingHandler,
    CallingInner,
    SendingResponse,
    Finished,
}

/// What the driver observed after the last action.
pub enum InjectedEvent<M, E> {
    HandlerSent,
    HandlerReceived(M),
    InnerResponded(Result<M, E>),
}

/// What the driver must do next with the shared handler or the wrapped stage.
pub enum InjectedAction<M, E> {
    SendHandler(M),
    ReceiveHandler,
    CallInner(M),
    Finish(Result<(), LayerError<E>>),
}

pub open spec fn injected_abort<M, E>() -> (InjectedPhase, InjectedAction<M, E>) {
    (InjectedPhase::Finished, InjectedAction::Finish(Err(LayerError::ServiceLayerError(OUT_OF_ORDER))))
}

/// One step of an injected-handler call: the request goes to the shared handler, what the
/// handler produces goes to the wrapped stage, and the wrapped stage's response goes back to
/// the shared handler.
pub open spec fn injected_next<M, E>(phase: InjectedPhase, ev: InjectedEvent<M, E>) -> (
    InjectedPhase,
    InjectedAction<M, E>,
) {
    match phase {
        InjectedPhase::SendingRequest => match ev {
            InjectedEvent::HandlerSent => (InjectedPhase::ReceivingHandler, InjectedAction::ReceiveHandler),
            _ => injected_abort(),
        },
        InjectedPhase::ReceivingHandler => match ev {
            InjectedEvent::HandlerReceived(m) => (InjectedPhase::CallingInner, InjectedAction::CallInner(m)),
            _ => injected_abort(),
        },
        InjectedPhase::CallingInner => match ev {
            InjectedEvent::InnerResponded(Ok(m)) => (InjectedPhase::SendingResponse, InjectedAction::SendHandler(m)),
            InjectedEvent::InnerResponded(Err(e)) => (
                InjectedPhase::Finished,
                InjectedAction::Finish(Err(LayerError::InnerError(e))),
            ),
            _ => injected_abort(),
        },
        InjectedPhase::SendingResponse => match ev {
            InjectedEvent::HandlerSent => (InjectedPhase::Finished, InjectedAction::Finish(Ok(()))),
            _ => injected_abort(),
        },
        InjectedPhase::Finished => (
            InjectedPhase::Finished,
            InjectedAction::Finish(Err(LayerError::ServiceLayerError(ALREADY_FINISHED))),
        ),
    }
}

/// How far a call is from its end, in steps.
pub open spec fn injected_rank(phase: InjectedPhase) -> nat {
    match phase {
        InjectedPhase::SendingRequest => 4,
        InjectedPhase::ReceivingHandler => 3,
        InjectedPhase::CallingInner => 2,
        InjectedPhase::SendingResponse => 1,
        InjectedPhase::Finished => 0,
    }
}

/// No call goes on forever: every event brings an unfinished call closer to its end.
pub proof fn lemma_injected_progress<M, E>(phase: InjectedPhase, ev: InjectedEvent<M, E>)
    requires
        !(phase is Finished),
    ensures
        injected_rank(injected_next(phase, ev).0) < injected_rank(phase),
{
}

/// An injected-handler call driven against an incrementing handler and a wrapped stage that
/// answers a request `m` with `stage(m)`: its phase, its pending action, and the value the
/// handler holds.
pub type IncrementingRun<E> = (InjectedPhase, InjectedAction<u32, E>, u32);

/// Performs the pending action (a send stores the message in the handler, a receive hands out
/// the value held and then increments it) and feeds the outcome to the exchange.
pub open spec fn incrementing_step<E>(run: IncrementingRun<E>, stage: spec_fn(u32) -> Result<u32, E>) -> IncrementingRun<E> {
    let (phase, action, held) = run;
    match action {
        InjectedAction::SendHandler(m) => {
            let (p, a) = injected_next(phase, InjectedEvent::HandlerSent);
            (p, a, m)
        },
        InjectedAction::ReceiveHandler => {
            let (p, a) = injected_next(phase, InjectedEvent::HandlerReceived(held));
            (p, a, successor(held))
        },
        InjectedAction::CallInner(m) => {
            let (p, a) = injected_next(phase, InjectedEvent::InnerResponded(stage(m)));
            (p, a, held)
        },
        InjectedAction::Finish(_) => run,
    }
}

/// Driven against an incrementing handler, a call with request `req` hands the wrapped stage
/// `req` itself, and leaves the handler holding the wrapped stage's response; an error of the
/// wrapped stage ends the call with that error.
pub proof fn lemma_injected_incrementing<E>(h: u32, req: u32, stage: spec_fn(u32) -> Result<u32, E>)
    ensures
        ({
            let start: IncrementingRun<E> = (InjectedPhase::SendingRequest, InjectedAction::SendHandler(req), h);
            let called = incrementing_step(incrementing_step(start, stage), stage);
            let end = incrementing_step(incrementing_step(called, stage), stage);
            &&& called.1 == InjectedAction::<u32, E>::CallInner(req)
            &&& match stage(req) {
                Ok(r) => end.1 == InjectedAction::<u32, E>::Finish(Ok(())) && end.2 == r,
                Err(e) => end.1 == InjectedAction::<u32, E>::Finish(Err(LayerError::InnerError(e))),
            }
        }),
{
}

/// The state of one call through the injected-handler adapter.
pub struct InjectedExchange<M, E> {
    pub phase: InjectedPhase,
    pub phantom: PhantomData<(M, E)>,
}

impl<M, E> InjectedExchange<M, E> {
    /// A fresh exchange for request `req`, whose first action is to send it to the handler.
    pub fn start(req: M) -> (r: (InjectedExchange<M, E>, InjectedAction<M, E>))
        ensures
            r.0.phase == InjectedPhase::SendingRequest,
            r.1 == InjectedAction::<M, E>::SendHandler(req),
    {
        (InjectedExchange { phase: InjectedPhase::SendingRequest, phantom: PhantomData }, InjectedAction::SendHandler(req))
    }

    /// Takes what the last action produced and decides the next action.
    pub fn on_event(self, ev: InjectedEvent<M, E>) -> (r: (InjectedExchange<M, E>, InjectedAction<M, E>))
        ensures
            (r.0.phase, r.1) == injected_next(self.phase, ev),
    {
        let (phase, action) = match self.phase {
            InjectedPhase::SendingRequest => match ev {
                InjectedEvent::HandlerSent => (InjectedPhase::ReceivingHandler, InjectedAction::ReceiveHandler),
                _ => abort(),
            },
            InjectedPhase::ReceivingHandler => match ev {
                InjectedEvent::HandlerReceived(m) => (InjectedPhase::CallingInner, InjectedAction::CallInner(m)),
                _ => abort(),
            },
            InjectedPhase::CallingInner => match ev {
                InjectedEvent::InnerResponded(Ok(m)) => (
                    InjectedPhase::SendingResponse,
                    InjectedAction::SendHandler(m),
                ),
                InjectedEvent::InnerResponded(Err(e)) => (
                    InjectedPhase::Finished,
                    InjectedAction::Finish(Err(LayerError::InnerError(e))),
                ),
                _ => abort(),
            },
            InjectedPhase::SendingResponse => match ev {
                InjectedEvent::HandlerSent => (InjectedPhase::Finished, InjectedAction::Finish(Ok(()))),
                _ => abort(),
            },
            InjectedPhase::Finished => (
                InjectedPhase::Finished,
                InjectedAction::Finish(Err(LayerError::ServiceLayerError(ALREADY_FINISHED))),
            ),
        };
        (InjectedExchange { phase, phantom: PhantomData }, action)
    }
}

fn abort<M, E>() -> (r: (InjectedPhase, InjectedAction<M, E>))
    ensures
        r == injected_abort::<M, E>(),
{
    (InjectedPhase::Finished, InjectedAction::Finish(Err(LayerError::ServiceLayerError(OUT_OF_ORDER))))
}

/// The injected-handler adapter around a wrapped stage `S`, holding a handler `H` that every
/// call shares.
pub struct InjectedPatternService<S, H, M> {
    pub inner: S,
    pub handler: H,
    pub phantom_message: PhantomData<M>,
}

impl<S, H, M> InjectedPatternService<S, H, M> {
    pub fn inner_mut(&mut self) -> (r: &mut S)
        ensures
            *r == old(self).inner,
            final(self).inner == *final(r),
            final(self).handler == old(self).handler,
    {
        &mut self.inner
    }

    pub fn handler_mut(&mut self) -> (r: &mut H)
        ensures
            *r == old(self).handler,
            final(self).handler == *final(r),
            final(self).inner == old(self).inner,
    {
        &mut self.handler
    }
}

/// Builds injected-handler adapters, each holding a clone of one handler.
pub struct InjectedPatternLayer<H, M> {
    pub handler: H,
    pub phantom_message: PhantomData<M>,
}

impl<H: Clone, M> InjectedPatternLayer<H, M> {
    pub fn new(handler: H) -> (r: Self)
        ensures
            r.handler == handler,
    {
        InjectedPatternLayer { handler, phantom_message: PhantomData }
    }

    pub fn layer<S>(&self, inner: S) -> (r: InjectedPatternService<S, H, M>)
        ensures
            r.inner == inner,
            cloned(self.handler, r.handler),
    {
        InjectedPatternService { inner, handler: self.handler.clone(), phantom_message: PhantomData }
    }
}

} // verus!
