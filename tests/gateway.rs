use nu_plugin_http::acceptor::{should_log, AcceptAction, AcceptEvent, Acceptor, ConnectionFailure};
use nu_plugin_http::client::{forward_event, is_valid_method, request_method, BodyEvent, ClientError, ForwardAction};
use nu_plugin_http::envelope::{build_envelope, value_is_text, HeaderField, ProtocolError, RequestEnvelope, RequestHead};
use nu_plugin_http::response::{
    plan_response, HandlerContractViolation, HandlerOutput, HandlerValue, PullEvent, ResponsePlan, SendOutcome,
    StreamWorker, WorkerAction,
};
use nu_plugin_http::shutdown::ShutdownSignal;
use nu_plugin_http::HTTPServe;

fn field(name: &str, value: &[u8]) -> HeaderField {
    HeaderField { name: name.to_string(), value: value.to_vec() }
}

fn head(method: &str, headers: Vec<HeaderField>) -> RequestHead {
    RequestHead { method: method.to_string(), headers }
}

fn lookup<'a>(env: &'a RequestEnvelope, name: &str) -> Option<&'a [u8]> {
    env.header_value(&name.to_string()).map(|v| v.as_slice())
}

#[test]
fn envelope_keeps_method_and_headers() {
    let env = build_envelope(&head("GET", vec![field("x", b"1")])).unwrap();
    assert_eq!(env.method, "GET");
    assert_eq!(env.headers.len(), 1);
    assert_eq!(lookup(&env, "x"), Some(&b"1"[..]));
    assert_eq!(lookup(&env, "y"), None);
}

#[test]
fn envelope_holds_every_header() {
    let hs = vec![field("host", b"localhost"), field("accept", b"*/*"), field("user-agent", b"curl/8.0\tx")];
    let env = build_envelope(&head("POST", hs)).unwrap();
    assert_eq!(env.headers.len(), 3);
    assert_eq!(lookup(&env, "host"), Some(&b"localhost"[..]));
    assert_eq!(lookup(&env, "accept"), Some(&b"*/*"[..]));
    assert_eq!(lookup(&env, "user-agent"), Some(&b"curl/8.0\tx"[..]));
}

#[test]
fn envelope_later_header_line_wins() {
    let hs = vec![field("a", b"1"), field("b", b"2"), field("a", b"3")];
    let env = build_envelope(&head("GET", hs)).unwrap();
    assert_eq!(env.headers.len(), 2);
    assert_eq!(lookup(&env, "a"), Some(&b"3"[..]));
    assert_eq!(lookup(&env, "b"), Some(&b"2"[..]));
}

#[test]
fn envelope_without_headers() {
    let env = build_envelope(&head("HEAD", vec![])).unwrap();
    assert_eq!(env.method, "HEAD");
    assert!(env.headers.is_empty());
}

#[test]
fn envelope_rejects_non_text_value() {
    let hs = vec![field("a", b"ok"), field("b", &[0x66, 0xff]), field("c", &[0x01])];
    let r = build_envelope(&head("GET", hs));
    assert_eq!(r.unwrap_err(), ProtocolError::NonTextHeader { index: 1 });
}

#[test]
fn text_value_bounds() {
    assert!(value_is_text(&vec![b' ', b'~', b'\t']));
    assert!(value_is_text(&vec![]));
    assert!(!value_is_text(&vec![0x7f]));
    assert!(!value_is_text(&vec![0x1f]));
    assert!(!value_is_text(&vec![b'a', b'\n']));
}

#[test]
fn direct_value_response() {
    match plan_response(HandlerOutput::Value(HandlerValue::Text("hello".to_string()))) {
        Ok(ResponsePlan::Direct(body)) => assert_eq!(body, "hello"),
        _ => panic!("expected a direct response"),
    }
}

#[test]
fn stream_output_is_streamed() {
    assert!(matches!(plan_response(HandlerOutput::Stream), Ok(ResponsePlan::Streamed)));
}

#[test]
fn unsupported_outputs_are_violations() {
    assert_eq!(
        plan_response(HandlerOutput::Value(HandlerValue::Other)).unwrap_err(),
        HandlerContractViolation::UnsupportedValue
    );
    assert_eq!(plan_response(HandlerOutput::Empty).unwrap_err(), HandlerContractViolation::Empty);
    assert_eq!(plan_response(HandlerOutput::ExternalStream).unwrap_err(), HandlerContractViolation::ExternalStream);
}

fn text(s: &str) -> PullEvent {
    PullEvent::Item(HandlerValue::Text(s.to_string()))
}

#[test]
fn streamed_chunks_keep_their_order() {
    let mut w = StreamWorker::new();
    let mut body = String::new();
    for item in ["a", "b", "c"] {
        match w.on_pull(text(item)) {
            WorkerAction::Send(f) => body.push_str(&f),
            other => panic!("unexpected {:?}", other),
        }
        assert!(matches!(w.on_send(SendOutcome::Accepted), WorkerAction::Pull));
    }
    assert!(matches!(w.on_pull(PullEvent::Exhausted), WorkerAction::Finish));
    assert!(w.is_done());
    assert_eq!(body, "abc");
}

#[test]
fn full_channel_resends_the_same_frame() {
    let mut w = StreamWorker::new();
    assert!(matches!(w.on_pull(text("x")), WorkerAction::Send(_)));
    for _ in 0..40 {
        match w.on_send(SendOutcome::Full) {
            WorkerAction::Send(f) => assert_eq!(f, "x"),
            other => panic!("unexpected {:?}", other),
        }
    }
    assert!(matches!(w.on_send(SendOutcome::Accepted), WorkerAction::Pull));
    assert!(!w.is_done());
}

#[test]
fn closed_consumer_stops_worker_quietly() {
    let mut w = StreamWorker::new();
    assert!(matches!(w.on_pull(text("a")), WorkerAction::Send(_)));
    assert!(matches!(w.on_send(SendOutcome::Accepted), WorkerAction::Pull));
    assert!(matches!(w.on_pull(text("b")), WorkerAction::Send(_)));
    assert!(matches!(w.on_send(SendOutcome::ConsumerClosed), WorkerAction::Finish));
    assert!(w.is_done());
}

#[test]
fn non_text_stream_item_aborts() {
    let mut w = StreamWorker::new();
    assert!(matches!(
        w.on_pull(PullEvent::Item(HandlerValue::Other)),
        WorkerAction::Abort(HandlerContractViolation::UnsupportedStreamItem)
    ));
    assert!(w.is_done());
}

#[test]
fn acceptor_stops_after_signal() {
    let mut a = Acceptor::new();
    assert!(!a.is_stopped());
    for _ in 0..3 {
        assert_eq!(a.step(AcceptEvent::Connection), AcceptAction::Spawn);
    }
    assert_eq!(a.step(AcceptEvent::AcceptFailed), AcceptAction::LogAndContinue);
    assert_eq!(a.step(AcceptEvent::StopSignalled), AcceptAction::Exit);
    assert!(a.is_stopped());
    assert_eq!(a.step(AcceptEvent::Connection), AcceptAction::Exit);
}

#[test]
fn repeated_stop_signal_changes_nothing() {
    let mut once = Acceptor::new();
    let mut twice = Acceptor::new();
    assert_eq!(once.step(AcceptEvent::StopSignalled), AcceptAction::Exit);
    assert_eq!(twice.step(AcceptEvent::StopSignalled), AcceptAction::Exit);
    assert_eq!(twice.step(AcceptEvent::StopSignalled), AcceptAction::Exit);
    assert_eq!(once.is_stopped(), twice.is_stopped());
    assert_eq!(once.step(AcceptEvent::Connection), twice.step(AcceptEvent::Connection));
}

#[test]
fn shutdown_signal_sets_once() {
    let mut s = ShutdownSignal::new();
    assert!(!s.is_stopped());
    assert!(s.signal_stop());
    assert!(s.is_stopped());
    assert!(!s.signal_stop());
    assert!(s.is_stopped());
}

#[test]
fn benign_disconnect_is_not_logged() {
    assert!(!should_log(ConnectionFailure::NotConnected));
    assert!(should_log(ConnectionFailure::Other));
}

#[test]
fn method_is_upper_cased() {
    assert_eq!(request_method("get").unwrap(), http::Method::GET);
    assert_eq!(request_method("Post").unwrap(), http::Method::POST);
    assert_eq!(request_method("purge").unwrap().as_str(), "PURGE");
}

#[test]
fn invalid_method_is_refused() {
    assert_eq!(request_method("").unwrap_err(), ClientError::InvalidMethod);
    assert_eq!(request_method("ge t").unwrap_err(), ClientError::InvalidMethod);
    assert_eq!(request_method("a(b)").unwrap_err(), ClientError::InvalidMethod);
}

#[test]
fn method_token_check() {
    assert!(is_valid_method("GET"));
    assert!(is_valid_method("M-SEARCH"));
    assert!(!is_valid_method("GET\r\n"));
    assert!(!is_valid_method(""));
}

#[test]
fn body_events_are_forwarded() {
    assert_eq!(forward_event(BodyEvent::Data(vec![1, 2])), ForwardAction::Chunk(vec![1, 2]));
    assert_eq!(forward_event(BodyEvent::NonData), ForwardAction::Skip);
    assert_eq!(forward_event(BodyEvent::Error), ForwardAction::Fail);
    assert_eq!(forward_event(BodyEvent::End), ForwardAction::Stop);
}

#[test]
fn command_name_and_usage() {
    assert_eq!(HTTPServe.name(), "h. serve");
    assert_eq!(HTTPServe.usage(), "Service HTTP requests");
}
