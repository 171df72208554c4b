use tower_patterns::error::LayerError;
use tower_patterns::helper::{DataTypeA, DataTypeB, IncrementingHandler};
use tower_patterns::pattern_basic::BasicPatternLayer;
use tower_patterns::pattern_chan::{self, ChanAction, ChanEvent, ChanExchange, ChannelPatternLayer};
use tower_patterns::pattern_handler::{self, Combine, HandlerAction, HandlerEvent, HandlerExchange, HandlerPatternLayer, ServiceHandler};
use tower_patterns::pattern_injected::{
    self, InjectedAction, InjectedEvent, InjectedExchange, InjectedPatternLayer,
};
use tower_patterns::pattern_io::{self, reverse_bytes, IoAction, IoEvent, IoExchange, IoTowerLayer};

/// Holds an exchange between steps, so that a test can feed it one event at a time.
struct IoRun<E>(Option<IoExchange<E>>);

impl<E> IoRun<E> {
    fn step(&mut self, ev: IoEvent<E>) -> IoAction<E> {
        let (next, action) = self.0.take().unwrap().on_event(ev);
        self.0 = Some(next);
        action
    }
}

struct ChanRun<E>(Option<ChanExchange<DataTypeA, DataTypeB, E>>);

impl<E> ChanRun<E> {
    fn step(&mut self, ev: ChanEvent<DataTypeA, DataTypeB, E>) -> ChanAction<DataTypeA, DataTypeB, E> {
        let (next, action) = self.0.take().unwrap().on_event(ev);
        self.0 = Some(next);
        action
    }
}

fn written(a: IoAction<()>) -> Vec<u8> {
    match a {
        IoAction::WriteInner(b) | IoAction::WriteInput(b) => b,
        _ => panic!("expected a write"),
    }
}

fn io_finish<E>(a: IoAction<E>) -> Result<(), LayerError<E>> {
    match a {
        IoAction::Finish(r) => r,
        _ => panic!("expected the end of the exchange"),
    }
}

fn chan_finish<E>(a: ChanAction<DataTypeA, DataTypeB, E>) -> Result<(), LayerError<E>> {
    match a {
        ChanAction::Finish(r) => r,
        _ => panic!("expected the end of the exchange"),
    }
}

#[test]
fn basic_example() {
    let layer = BasicPatternLayer::<u8, u16, u32>::default();
    let service = layer.layer(());
    let output = service.call(5u8, |input: u16| Ok::<u32, ()>(input as u32));
    assert_eq!(output, Ok(5));
}

#[test]
fn basic_passes_inner_error_unchanged() {
    let service = BasicPatternLayer::<u8, u16, u32>::default().layer(());
    let output = service.call(7u8, |input: u16| Err::<u32, String>(format!("rejected {}", input)));
    assert_eq!(output, Err("rejected 7".to_string()));
}

#[test]
fn basic_converts_request() {
    let service = BasicPatternLayer::<DataTypeA, DataTypeB, ()>::default().layer(());
    assert_eq!(service.convert_request(DataTypeA(200)).0, 200u32);
}

#[test]
fn reverse_bytes_reverses() {
    assert_eq!(reverse_bytes(b"abc"), b"cba".to_vec());
    assert_eq!(reverse_bytes(b""), Vec::<u8>::new());
    assert_eq!(reverse_bytes(b"x"), b"x".to_vec());
}

#[test]
fn io_example() {
    let _service = IoTowerLayer::default().layer(());
    let (start, first) = IoExchange::<()>::start();
    let mut ex = IoRun(Some(start));
    assert!(matches!(first, IoAction::ReadInput));
    let to_inner = written(ex.step(IoEvent::InputRead(Some(b"RapidRecast".to_vec()))));
    assert_eq!(to_inner, b"tsaceRdipaR".to_vec());
    assert!(matches!(ex.step(IoEvent::<()>::InnerWritten(true)), IoAction::ReadInner));
    // The wrapped stage answers "Hello, {what it read}!!!".
    let mut response = b"Hello, ".to_vec();
    response.extend_from_slice(&to_inner);
    response.extend_from_slice(b"!!!");
    let to_caller = written(ex.step(IoEvent::InnerRead(Some(response))));
    assert_eq!(String::from_utf8(to_caller).unwrap(), "!!!RapidRecast ,olleH");
    assert!(matches!(ex.step(IoEvent::<()>::InputWritten(true)), IoAction::Join));
    assert!(io_finish(ex.step(IoEvent::<()>::Joined(Some(Ok(()))))).is_ok());
}

#[test]
fn io_echo_gives_caller_its_bytes() {
    let (start, _) = IoExchange::<()>::start();
    let mut ex = IoRun(Some(start));
    let to_inner = written(ex.step(IoEvent::InputRead(Some(vec![1, 2, 3, 4]))));
    ex.step(IoEvent::<()>::InnerWritten(true));
    let to_caller = written(ex.step(IoEvent::InnerRead(Some(to_inner))));
    assert_eq!(to_caller, vec![1, 2, 3, 4]);
}

#[test]
fn io_closed_input_is_mediation_failure() {
    let (start, _) = IoExchange::<()>::start();
    let mut ex = IoRun(Some(start));
    assert!(matches!(ex.step(IoEvent::<()>::InputRead(Some(vec![]))), IoAction::Join));
    let r = io_finish(ex.step(IoEvent::<()>::Joined(Some(Ok(())))));
    assert!(matches!(r, Err(LayerError::ServiceLayerError(m)) if m == pattern_io::READ_INPUT_FAILED));
}

#[test]
fn io_failed_input_read_is_mediation_failure() {
    let (start, _) = IoExchange::<()>::start();
    let mut ex = IoRun(Some(start));
    ex.step(IoEvent::<()>::InputRead(None));
    let r = io_finish(ex.step(IoEvent::<()>::Joined(None)));
    assert!(matches!(r, Err(LayerError::ServiceLayerError(m)) if m == pattern_io::READ_INPUT_FAILED));
}

#[test]
fn io_closed_inner_is_mediation_failure() {
    let (start, _) = IoExchange::<()>::start();
    let mut ex = IoRun(Some(start));
    ex.step(IoEvent::<()>::InputRead(Some(b"hi".to_vec())));
    ex.step(IoEvent::<()>::InnerWritten(true));
    assert!(matches!(ex.step(IoEvent::<()>::InnerRead(Some(vec![]))), IoAction::Join));
    let r = io_finish(ex.step(IoEvent::<()>::Joined(Some(Ok(())))));
    assert!(matches!(r, Err(LayerError::ServiceLayerError(m)) if m == pattern_io::READ_INNER_FAILED));
}

#[test]
fn io_failed_writes_are_mediation_failures() {
    let (start, _) = IoExchange::<()>::start();
    let mut ex = IoRun(Some(start));
    ex.step(IoEvent::<()>::InputRead(Some(b"hi".to_vec())));
    ex.step(IoEvent::<()>::InnerWritten(false));
    let r = io_finish(ex.step(IoEvent::<()>::Joined(Some(Ok(())))));
    assert!(matches!(r, Err(LayerError::ServiceLayerError(m)) if m == pattern_io::WRITE_INNER_FAILED));

    let (start, _) = IoExchange::<()>::start();
    let mut ex = IoRun(Some(start));
    ex.step(IoEvent::<()>::InputRead(Some(b"hi".to_vec())));
    ex.step(IoEvent::<()>::InnerWritten(true));
    ex.step(IoEvent::<()>::InnerRead(Some(b"yo".to_vec())));
    ex.step(IoEvent::<()>::InputWritten(false));
    let r = io_finish(ex.step(IoEvent::<()>::Joined(Some(Ok(())))));
    assert!(matches!(r, Err(LayerError::ServiceLayerError(m)) if m == pattern_io::WRITE_INPUT_FAILED));
}

#[test]
fn io_join_failure_is_mediation_failure() {
    let (start, _) = IoExchange::<()>::start();
    let mut ex = IoRun(Some(start));
    ex.step(IoEvent::<()>::InputRead(Some(b"hi".to_vec())));
    ex.step(IoEvent::<()>::InnerWritten(true));
    ex.step(IoEvent::<()>::InnerRead(Some(b"yo".to_vec())));
    ex.step(IoEvent::<()>::InputWritten(true));
    let r = io_finish(ex.step(IoEvent::<()>::Joined(None)));
    assert!(matches!(r, Err(LayerError::ServiceLayerError(m)) if m == pattern_io::JOIN_FAILED));
}

#[test]
fn io_inner_error_reaches_caller() {
    let (start, _) = IoExchange::<u32>::start();
    let mut ex = IoRun(Some(start));
    ex.step(IoEvent::<u32>::InputRead(Some(vec![]))); // fails early
    let r = io_finish(ex.step(IoEvent::Joined(Some(Err(42u32)))));
    assert!(matches!(r, Err(LayerError::InnerError(42))));
}

#[test]
fn io_waits_for_join_and_refuses_after_end() {
    let (start, _) = IoExchange::<()>::start();
    let mut ex = IoRun(Some(start));
    assert!(matches!(ex.step(IoEvent::<()>::InnerWritten(true)), IoAction::Join));
    assert!(matches!(ex.step(IoEvent::<()>::InputWritten(true)), IoAction::Join));
    let r = io_finish(ex.step(IoEvent::<()>::Joined(Some(Ok(())))));
    assert!(matches!(r, Err(LayerError::ServiceLayerError(m)) if m == pattern_io::OUT_OF_ORDER));
    let r = io_finish(ex.step(IoEvent::<()>::Joined(Some(Ok(())))));
    assert!(matches!(r, Err(LayerError::ServiceLayerError(m)) if m == pattern_io::ALREADY_FINISHED));
}

#[test]
fn channel_example() {
    let _service = ChannelPatternLayer::<DataTypeB>::new().layer(());
    let (start, first) = ChanExchange::<DataTypeA, DataTypeB, ()>::start();
    let mut ex = ChanRun(Some(start));
    assert!(matches!(first, ChanAction::ReceiveInput));
    let to_inner = match ex.step(ChanEvent::InputReceived(Some(DataTypeA(5)))) {
        ChanAction::SendInner(b) => b,
        _ => panic!("expected a send to the wrapped stage"),
    };
    assert_eq!(to_inner.0, 5);
    assert!(matches!(ex.step(ChanEvent::InnerSent(true)), ChanAction::ReceiveInner));
    // The wrapped stage doubles the value and keeps it below 255.
    let doubled = DataTypeB((to_inner.0 * 2) % 0xff);
    let to_caller = match ex.step(ChanEvent::InnerReceived(Some(doubled))) {
        ChanAction::SendInput(a) => a,
        _ => panic!("expected a send to the caller"),
    };
    assert_eq!(to_caller.0, 10);
    assert!(matches!(ex.step(ChanEvent::InputSent(true)), ChanAction::Join));
    assert!(chan_finish(ex.step(ChanEvent::Joined(Some(Ok(()))))).is_ok());
}

#[test]
fn channel_converts_back_by_keeping_low_byte() {
    let (start, _) = ChanExchange::<DataTypeA, DataTypeB, ()>::start();
    let mut ex = ChanRun(Some(start));
    ex.step(ChanEvent::InputReceived(Some(DataTypeA(1))));
    ex.step(ChanEvent::InnerSent(true));
    match ex.step(ChanEvent::InnerReceived(Some(DataTypeB(300)))) {
        ChanAction::SendInput(a) => assert_eq!(a.0, 44),
        _ => panic!("expected a send to the caller"),
    }
}

#[test]
fn channel_closed_input_is_mediation_failure() {
    let (start, _) = ChanExchange::<DataTypeA, DataTypeB, ()>::start();
    let mut ex = ChanRun(Some(start));
    assert!(matches!(ex.step(ChanEvent::InputReceived(None)), ChanAction::Join));
    let r = chan_finish(ex.step(ChanEvent::Joined(Some(Ok(())))));
    assert!(matches!(r, Err(LayerError::ServiceLayerError(m)) if m == pattern_chan::RECEIVE_INPUT_FAILED));
}

#[test]
fn channel_closed_inner_is_mediation_failure() {
    let (start, _) = ChanExchange::<DataTypeA, DataTypeB, ()>::start();
    let mut ex = ChanRun(Some(start));
    ex.step(ChanEvent::InputReceived(Some(DataTypeA(1))));
    ex.step(ChanEvent::InnerSent(true));
    ex.step(ChanEvent::InnerReceived(None));
    let r = chan_finish(ex.step(ChanEvent::Joined(Some(Ok(())))));
    assert!(matches!(r, Err(LayerError::ServiceLayerError(m)) if m == pattern_chan::RECEIVE_INNER_FAILED));
}

#[test]
fn channel_failed_sends_are_mediation_failures() {
    let (start, _) = ChanExchange::<DataTypeA, DataTypeB, ()>::start();
    let mut ex = ChanRun(Some(start));
    ex.step(ChanEvent::InputReceived(Some(DataTypeA(1))));
    ex.step(ChanEvent::InnerSent(false));
    let r = chan_finish(ex.step(ChanEvent::Joined(None)));
    assert!(matches!(r, Err(LayerError::ServiceLayerError(m)) if m == pattern_chan::SEND_INNER_FAILED));

    let (start, _) = ChanExchange::<DataTypeA, DataTypeB, ()>::start();
    let mut ex = ChanRun(Some(start));
    ex.step(ChanEvent::InputReceived(Some(DataTypeA(1))));
    ex.step(ChanEvent::InnerSent(true));
    ex.step(ChanEvent::InnerReceived(Some(DataTypeB(2))));
    ex.step(ChanEvent::InputSent(false));
    let r = chan_finish(ex.step(ChanEvent::Joined(Some(Ok(())))));
    assert!(matches!(r, Err(LayerError::ServiceLayerError(m)) if m == pattern_chan::SEND_INPUT_FAILED));
}

#[test]
fn channel_join_failure_is_mediation_failure() {
    let (start, _) = ChanExchange::<DataTypeA, DataTypeB, ()>::start();
    let mut ex = ChanRun(Some(start));
    ex.step(ChanEvent::InputReceived(Some(DataTypeA(1))));
    ex.step(ChanEvent::InnerSent(true));
    ex.step(ChanEvent::InnerReceived(Some(DataTypeB(2))));
    ex.step(ChanEvent::InputSent(true));
    let r = chan_finish(ex.step(ChanEvent::Joined(None)));
    assert!(matches!(r, Err(LayerError::ServiceLayerError(m)) if m == pattern_chan::JOIN_FAILED));
}

#[test]
fn channel_inner_error_reaches_caller() {
    let (start, _) = ChanExchange::<DataTypeA, DataTypeB, &str>::start();
    let mut ex = ChanRun(Some(start));
    ex.step(ChanEvent::InputReceived(Some(DataTypeA(1))));
    ex.step(ChanEvent::InnerSent(true));
    ex.step(ChanEvent::InnerReceived(None));
    let r = chan_finish(ex.step(ChanEvent::Joined(Some(Err("boom")))));
    assert!(matches!(r, Err(LayerError::InnerError("boom"))));
}

#[test]
fn stacked_inner_error_is_kept() {
    // A typed-channel adapter whose wrapped stage failed ...
    let (start, _) = ChanExchange::<DataTypeA, DataTypeB, u8>::start();
    let mut inner_ex = ChanRun(Some(start));
    inner_ex.step(ChanEvent::InputReceived(None));
    let inner_result = chan_finish(inner_ex.step(ChanEvent::Joined(Some(Err(9u8)))));
    // ... wrapped by a stream adapter that joins it.
    let (start, _) = IoExchange::<LayerError<u8>>::start();
    let mut outer_ex = IoRun(Some(start));
    outer_ex.step(IoEvent::InputRead(Some(vec![])));
    let outer = io_finish(outer_ex.step(IoEvent::Joined(Some(inner_result))));
    assert!(matches!(outer, Err(LayerError::InnerError(LayerError::InnerError(9)))));
}

#[test]
fn handler_example() {
    let _service = HandlerPatternLayer::<u32>::new().layer(());
    let mut our_handler = IncrementingHandler::new(654);
    let mut inner_handler: Option<IncrementingHandler> = None;
    let (mut ex, mut action) = HandlerExchange::<u32, ()>::start();
    let result = loop {
        let ev = match action {
            HandlerAction::ObtainInner => {
                // The wrapped stage gives a fresh handler, whose value the exchange overwrites.
                inner_handler = Some(IncrementingHandler::new(123));
                HandlerEvent::InnerObtained(Ok(()))
            },
            HandlerAction::ReceiveInput => HandlerEvent::InputReceived(our_handler.receive_message()),
            HandlerAction::SendInner(m) => {
                inner_handler.as_mut().unwrap().send_message(m);
                HandlerEvent::InnerSent
            },
            HandlerAction::ReceiveInner => HandlerEvent::InnerReceived(inner_handler.as_mut().unwrap().receive_message()),
            HandlerAction::SendInput(m) => {
                our_handler.send_message(m);
                HandlerEvent::InputSent
            },
            HandlerAction::Finish(r) => break r,
        };
        let (next, a) = ex.on_event(ev);
        ex = next;
        action = a;
    };
    assert!(result.is_ok());
    assert_eq!(our_handler.receive_message(), 654 + 655);
}

#[test]
fn handler_inner_error_reaches_caller() {
    let (ex, _) = HandlerExchange::<u32, i32>::start();
    let (_, a) = ex.on_event(HandlerEvent::InnerObtained(Err(-3)));
    assert!(matches!(a, HandlerAction::Finish(Err(LayerError::InnerError(-3)))));
}

#[test]
fn handler_out_of_order_and_finished() {
    let (ex, _) = HandlerExchange::<u32, ()>::start();
    let (ex, a) = ex.on_event(HandlerEvent::InputSent);
    assert!(matches!(a, HandlerAction::Finish(Err(LayerError::ServiceLayerError(m))) if m == pattern_handler::OUT_OF_ORDER));
    let (_, a) = ex.on_event(HandlerEvent::InputSent);
    assert!(matches!(a, HandlerAction::Finish(Err(LayerError::ServiceLayerError(m))) if m == pattern_handler::ALREADY_FINISHED));
}

#[test]
fn handler_sum_wraps() {
    let (ex, _) = HandlerExchange::<u32, ()>::start();
    let (ex, _) = ex.on_event(HandlerEvent::InnerObtained(Ok(())));
    let (ex, _) = ex.on_event(HandlerEvent::InputReceived(7));
    let (ex, _) = ex.on_event(HandlerEvent::InnerSent);
    let (ex, _) = ex.on_event(HandlerEvent::InnerReceived(u32::MAX));
    let (ex, a) = ex.on_event(HandlerEvent::InnerReceived(2));
    assert!(matches!(a, HandlerAction::SendInput(1)));
    let (_, a) = ex.on_event(HandlerEvent::InputSent);
    assert!(matches!(a, HandlerAction::Finish(Ok(()))));
}

fn run_injected(handler: &mut IncrementingHandler, req: u32, stage: impl Fn(u32) -> Result<u32, ()>) -> Result<(), LayerError<()>> {
    let (mut ex, mut action) = InjectedExchange::<u32, ()>::start(req);
    loop {
        let ev = match action {
            InjectedAction::SendHandler(m) => {
                handler.send_message(m);
                InjectedEvent::HandlerSent
            },
            InjectedAction::ReceiveHandler => InjectedEvent::HandlerReceived(handler.receive_message()),
            InjectedAction::CallInner(m) => InjectedEvent::InnerResponded(stage(m)),
            InjectedAction::Finish(r) => return r,
        };
        let (next, a) = ex.on_event(ev);
        ex = next;
        action = a;
    }
}

#[test]
fn injected_example() {
    let internal_handler = IncrementingHandler::new(100);
    let mut service = InjectedPatternLayer::<IncrementingHandler, u32>::new(internal_handler).layer(());
    let result = run_injected(service.handler_mut(), 200, |x| Ok(x * 2));
    assert!(result.is_ok());
    assert_eq!(service.handler_mut().receive_message(), 200 * 2);
}

#[test]
fn injected_inner_error_reaches_caller() {
    let mut handler = IncrementingHandler::new(1);
    let result = run_injected(&mut handler, 5, |_| Err(()));
    assert!(matches!(result, Err(LayerError::InnerError(()))));
}

#[test]
fn injected_out_of_order_and_finished() {
    let (ex, _) = InjectedExchange::<u32, ()>::start(1);
    let (ex, a) = ex.on_event(InjectedEvent::HandlerReceived(3));
    assert!(matches!(a, InjectedAction::Finish(Err(LayerError::ServiceLayerError(m))) if m == pattern_injected::OUT_OF_ORDER));
    let (_, a) = ex.on_event(InjectedEvent::HandlerSent);
    assert!(matches!(a, InjectedAction::Finish(Err(LayerError::ServiceLayerError(m))) if m == pattern_injected::ALREADY_FINISHED));
}

#[test]
fn incrementing_handler_wraps() {
    let mut h = IncrementingHandler::new(u32::MAX);
    assert_eq!(h.receive_message(), u32::MAX);
    assert_eq!(h.receive_message(), 0);
    h.send_message(9);
    assert_eq!(h.value, 9);
}

#[test]
fn combine_adds_with_wrap() {
    assert_eq!(3u32.combine(4), 7);
    assert_eq!(u32::MAX.combine(3), 2);
}

#[test]
fn data_type_conversions() {
    let b: DataTypeB = DataTypeA(255).into();
    assert_eq!(b.0, 255);
    let a: DataTypeA = DataTypeB(0x1_01).into();
    assert_eq!(a.0, 1);
}

#[test]
fn layer_error_from_wraps_inner() {
    let e: LayerError<u16> = LayerError::from(12u16);
    assert!(matches!(e, LayerError::InnerError(12)));
}
