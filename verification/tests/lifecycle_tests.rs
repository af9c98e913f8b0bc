use pyesb_amqp::callback::{
    callback_verdict, classify_callback_return, wrong_return_message, CallResult,
    CallbackOutcome, CallbackReturn, HolderRead, WorkerLoop, WorkerStep, CALLBACK_CHANNEL_CAP,
};
use pyesb_amqp::runtime::{
    listen_address, on_listener_event, settle, DispatchOutcome, Disposition, LinkAction,
    LinkRole, ListenerAction, ListenerEvent, ReceiverLoop, SessionLinks, CALLBACK_TIMEOUT_SECS,
};
use pyesb_amqp::server::{CallbackAction, StartError};
use pyesb_amqp::{CallbackProcessor, PyServer};

fn server() -> PyServer {
    PyServer::new("0.0.0.0".to_string(), 6698, "pyesb-broker".to_string())
}

#[test]
fn defaults_give_the_listen_address() {
    let s = server();
    assert_eq!(s.listen_address(), "0.0.0.0:6698");
    assert_eq!(s.port(), 6698);
    assert_eq!(s.host(), "0.0.0.0");
    assert_eq!(s.container_id(), "pyesb-broker");
    assert!(!s.is_running());
    assert_eq!(listen_address("localhost", 0), "localhost:0");
    assert_eq!(listen_address("::1", 65535), "::1:65535");
}

#[test]
fn start_without_event_loop_is_refused() {
    let mut s = server();
    let err = s.start().err().unwrap();
    assert!(matches!(err, StartError::NoEventLoop));
    assert_eq!(err.message(), "No event loop reference. Call AMQP.start() to set the loop.");
}

#[test]
fn start_then_start_again_is_refused_as_running() {
    let mut s = server();
    s.set_loop();
    let plan = s.start().ok().unwrap();
    assert!(plan.create_holder);
    assert!(!plan.replace_processor);
    assert!(s.listener_ready(true).is_ok());
    assert!(s.is_running());
    s.set_loop();
    let err = s.start().err().unwrap();
    assert!(matches!(err, StartError::AlreadyRunning));
    assert_eq!(err.message(), "Server is already running");
    assert!(s.is_running());
}

#[test]
fn bind_failure_is_reported_and_uses_up_the_loop() {
    let mut s = server();
    s.set_loop();
    assert!(s.start().is_ok());
    let err = s.listener_ready(false).err().unwrap();
    assert!(matches!(err, StartError::BindFailed));
    assert_eq!(err.message(), "Failed to bind AMQP listener — see stderr for details");
    assert!(!s.is_running());
    assert!(matches!(s.start().err().unwrap(), StartError::NoEventLoop));
    s.set_loop();
    let plan = s.start().ok().unwrap();
    assert!(!plan.create_holder);
    assert!(plan.replace_processor);
}

#[test]
fn stop_twice_does_nothing_the_second_time() {
    let mut s = server();
    s.set_loop();
    s.start().ok().unwrap();
    s.listener_ready(true).ok().unwrap();
    let first = s.stop();
    assert!(first.signal_shutdown && first.join_server_thread && first.shutdown_processor);
    assert!(!s.is_running());
    let second = s.stop();
    assert!(!second.signal_shutdown && !second.join_server_thread && !second.shutdown_processor);
}

#[test]
fn stop_when_never_started_is_safe() {
    let mut s = server();
    let p = s.stop();
    assert!(!p.signal_shutdown && !p.join_server_thread && !p.shutdown_processor);
}

#[test]
fn restart_after_stop_with_new_loop() {
    let mut s = server();
    s.set_loop();
    s.start().ok().unwrap();
    s.listener_ready(true).ok().unwrap();
    s.stop();
    s.set_loop();
    let plan = s.start().ok().unwrap();
    assert!(!plan.replace_processor);
    assert!(s.listener_ready(true).is_ok());
}

#[test]
fn callback_registration_before_and_after_start() {
    let mut s = server();
    assert!(matches!(s.on_message(), CallbackAction::CreateHolder));
    assert!(matches!(s.on_message(), CallbackAction::StoreInHolder));
    s.set_loop();
    let plan = s.start().ok().unwrap();
    assert!(!plan.create_holder);
    s.listener_ready(true).ok().unwrap();
    assert!(matches!(s.on_message(), CallbackAction::StoreInHolder));
    assert!(s.is_running());
}

#[test]
fn processor_hands_out_senders_until_shut_down() {
    let mut p = CallbackProcessor::new(5u32, "thread");
    assert_eq!(p.task_sender(), Some(5));
    assert_eq!(p.task_sender(), Some(5));
    assert_eq!(p.shutdown(), Some("thread"));
    assert_eq!(p.task_sender(), None);
    assert_eq!(p.shutdown(), None);
}

#[test]
fn verdicts() {
    assert!(callback_verdict(CallbackOutcome::Returned(true)));
    assert!(!callback_verdict(CallbackOutcome::Returned(false)));
    assert!(callback_verdict(CallbackOutcome::NoCallback));
    assert!(!callback_verdict(CallbackOutcome::Raised));
    assert!(!callback_verdict(CallbackOutcome::LockPoisoned));
    assert!(!callback_verdict(CallbackOutcome::InterpreterUnavailable));
}

#[test]
fn callback_return_classification() {
    assert!(matches!(classify_callback_return(Some(true), false), CallbackReturn::Answer(true)));
    assert!(matches!(classify_callback_return(Some(false), true), CallbackReturn::Answer(false)));
    assert!(matches!(classify_callback_return(None, true), CallbackReturn::RunCoroutine));
    assert!(matches!(classify_callback_return(None, false), CallbackReturn::WrongType));
    assert_eq!(
        wrong_return_message("int"),
        "Callback must return bool or be an async function, got int"
    );
}

#[test]
fn deliveries_are_accepted_only_on_true() {
    assert!(matches!(settle(DispatchOutcome::Answered(true)), Disposition::Accept));
    assert!(matches!(settle(DispatchOutcome::Answered(false)), Disposition::Reject));
    assert!(matches!(settle(DispatchOutcome::QueueClosed), Disposition::Reject));
    assert!(matches!(settle(DispatchOutcome::Dropped), Disposition::Reject));
    assert!(matches!(settle(DispatchOutcome::TimedOut), Disposition::Reject));
    let accepted = callback_verdict(CallbackOutcome::NoCallback);
    assert!(matches!(settle(DispatchOutcome::Answered(accepted)), Disposition::Accept));
}

#[test]
fn receiver_closes_only_after_a_delivery() {
    let mut r = ReceiverLoop::new();
    assert!(!r.should_close());
    assert!(r.may_receive());
    r.receive();
    assert!(!r.may_receive());
    assert!(matches!(r.settle_delivery(DispatchOutcome::TimedOut), Disposition::Reject));
    assert!(r.may_receive());
    assert!(r.should_close());
}

#[test]
fn receiver_settles_each_delivery_before_the_next() {
    let mut r = ReceiverLoop::new();
    r.receive();
    assert!(matches!(r.settle_delivery(DispatchOutcome::Answered(true)), Disposition::Accept));
    r.receive();
    assert!(matches!(r.settle_delivery(DispatchOutcome::Answered(false)), Disposition::Reject));
    r.receive();
    assert!(matches!(r.settle_delivery(DispatchOutcome::QueueClosed), Disposition::Reject));
    assert!(r.may_receive());
}

#[test]
fn worker_answers_each_task_from_the_holder_read_for_it() {
    let mut w = WorkerLoop::new();
    assert!(w.is_idle());
    // No callback registered yet: the task is accepted without a call.
    w.take_task();
    assert!(!w.is_idle());
    assert!(matches!(w.read_holder(HolderRead::Empty), WorkerStep::Answer(true)));
    assert!(w.is_idle());
    // A callback was registered meanwhile: it decides the next task.
    w.take_task();
    assert!(matches!(w.read_holder(HolderRead::Present), WorkerStep::CallCallback));
    assert!(!w.is_idle());
    assert!(!w.call_finished(CallResult::Returned(false)));
    assert!(w.is_idle());
    w.take_task();
    assert!(matches!(w.read_holder(HolderRead::Present), WorkerStep::CallCallback));
    assert!(w.call_finished(CallResult::Returned(true)));
}

#[test]
fn worker_rejects_on_raise_and_goes_on() {
    let mut w = WorkerLoop::new();
    w.take_task();
    assert!(matches!(w.read_holder(HolderRead::Present), WorkerStep::CallCallback));
    assert!(!w.call_finished(CallResult::Raised));
    assert!(w.is_idle());
    w.take_task();
    assert!(matches!(w.read_holder(HolderRead::Present), WorkerStep::CallCallback));
    assert!(!w.call_finished(CallResult::InterpreterUnavailable));
    w.take_task();
    assert!(matches!(w.read_holder(HolderRead::Poisoned), WorkerStep::Answer(false)));
    assert!(w.is_idle());
}

#[test]
fn session_drops_sender_links_and_ends_only_with_links() {
    let mut s = SessionLinks::new();
    assert!(!s.should_end());
    assert!(matches!(s.on_link(LinkRole::Sender), LinkAction::Drop));
    assert!(matches!(s.on_link(LinkRole::Receiver), LinkAction::Receive));
    assert!(s.should_end());
}

#[test]
fn listener_stops_only_on_shutdown() {
    assert!(matches!(on_listener_event(ListenerEvent::Shutdown), ListenerAction::Stop));
    assert!(matches!(on_listener_event(ListenerEvent::AcceptFailed), ListenerAction::KeepListening));
    assert!(matches!(on_listener_event(ListenerEvent::HandshakeFailed), ListenerAction::KeepListening));
    assert!(matches!(on_listener_event(ListenerEvent::Connected), ListenerAction::ServeConnection));
}

#[test]
fn limits() {
    assert_eq!(CALLBACK_CHANNEL_CAP, 1000);
    assert_eq!(CALLBACK_TIMEOUT_SECS, 30);
}
