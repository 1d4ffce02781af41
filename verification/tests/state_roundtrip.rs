use rbx_studio_mcp::dispatch::{AwaitOutcome, CodeAwaitOutcome, ToolOutcome};
use rbx_studio_mcp::errors::BridgeError;
use rbx_studio_mcp::ids::CallId;
use rbx_studio_mcp::model::{
    InputCommand, RunCode, RunCommandResponse, ServerCodeCommand, ServerCodeResult,
    ToolArgumentValues, ToolArguments,
};
use rbx_studio_mcp::state::{
    AppState, CallResponse, CodeDeliverOutcome, DeliverOutcome, EnqueueOutcome,
};
use tokio::sync::mpsc::unbounded_channel;

fn run_code_envelope(command: &str, bits: u128) -> (ToolArguments, CallId) {
    let id = CallId { bits };
    let args = ToolArgumentValues::RunCode(RunCode { command: command.to_string() });
    (ToolArguments::with_explicit_id(args, id), id)
}

#[test]
fn happy_path_reply_round_trip() {
    let mut state = AppState::new();
    let (cmd, id) = run_code_envelope("print('x')", 7);
    let (tx, mut rx) = unbounded_channel::<CallResponse>();

    let outcome = state.enqueue_call(cmd, tx);
    let trigger = match outcome {
        EnqueueOutcome::Enqueued(t) => t,
        _ => panic!("expected the envelope to be enqueued"),
    };
    trigger.send(()).unwrap();

    let popped = state.poll_request().expect("queue should hand out the envelope");
    assert_eq!(popped.id, Some(id));
    match popped.args {
        ToolArgumentValues::RunCode(rc) => assert_eq!(rc.command, "print('x')"),
        _ => panic!("wrong variant popped"),
    }

    let delivered = state.deliver_reply(RunCommandResponse {
        response: "x\n".to_string(),
        id,
    });
    assert_eq!(delivered, DeliverOutcome::Delivered);

    let received = rx.try_recv().unwrap();
    assert_eq!(received.as_deref().unwrap(), "x\n");

    match state.conclude_call(id, AwaitOutcome::Received(received)) {
        ToolOutcome::Success(text) => assert_eq!(text, "x\n"),
        ToolOutcome::Error(e) => panic!("unexpected error: {e}"),
    }
    assert!(!state.is_pending(id));
}

#[test]
fn unknown_reply_id_changes_nothing() {
    let mut state = AppState::new();
    let (cmd, _id) = run_code_envelope("print('x')", 9);
    let (tx, _rx) = unbounded_channel::<CallResponse>();
    assert!(matches!(state.enqueue_call(cmd, tx), EnqueueOutcome::Enqueued(_)));

    let nil = CallId::nil();
    let outcome = state.deliver_reply(RunCommandResponse {
        response: "hi".to_string(),
        id: nil,
    });
    assert_eq!(outcome, DeliverOutcome::UnknownId);

    // the queued envelope is still there, untouched
    let popped = state.poll_request().expect("the original envelope must survive");
    assert_eq!(popped.id, Some(CallId { bits: 9 }));
}

#[test]
fn timeout_cleans_reply_table() {
    let mut state = AppState::new();
    let (cmd, id) = run_code_envelope("x", 11);
    let (tx, _rx) = unbounded_channel::<CallResponse>();
    assert!(matches!(state.enqueue_call(cmd, tx), EnqueueOutcome::Enqueued(_)));
    assert!(state.is_pending(id));

    match state.conclude_call(id, AwaitOutcome::TimedOut) {
        ToolOutcome::Error(text) => assert!(text.starts_with("Tool execution timed out")),
        ToolOutcome::Success(_) => panic!("a timed-out call cannot succeed"),
    }
    assert!(!state.is_pending(id));
}

#[test]
fn duplicate_and_missing_ids_are_rejected() {
    let mut state = AppState::new();
    let (cmd, _) = run_code_envelope("a", 3);
    let (tx1, _rx1) = unbounded_channel::<CallResponse>();
    let (tx2, _rx2) = unbounded_channel::<CallResponse>();
    assert!(matches!(state.enqueue_call(cmd, tx1), EnqueueOutcome::Enqueued(_)));

    let (cmd2, _) = run_code_envelope("b", 3);
    assert!(matches!(state.enqueue_call(cmd2, tx2), EnqueueOutcome::DuplicateId));

    let (tx3, _rx3) = unbounded_channel::<CallResponse>();
    let unidentified = ToolArguments {
        args: ToolArgumentValues::RunCode(RunCode { command: "c".to_string() }),
        id: None,
    };
    assert!(matches!(state.enqueue_call(unidentified, tx3), EnqueueOutcome::MissingId));
}

#[test]
fn long_poll_wake_on_enqueue() {
    let mut state = AppState::new();
    assert!(state.poll_request().is_none());

    let waiter = state.clone_waiter();
    assert!(!waiter.receiver.has_changed().unwrap());

    let (cmd, id) = run_code_envelope("print('wake')", 21);
    let (tx, _rx) = unbounded_channel::<CallResponse>();
    let trigger = match state.enqueue_call(cmd, tx) {
        EnqueueOutcome::Enqueued(t) => t,
        _ => panic!("expected the envelope to be enqueued"),
    };
    trigger.send(()).unwrap();

    assert!(waiter.receiver.has_changed().unwrap());
    let popped = state.poll_request().expect("the wake must find the envelope");
    assert_eq!(popped.id, Some(id));
}

#[test]
fn forwarder_delegation_round_trip() {
    // instance B failed to bind; instance A owns the port
    let mut b = AppState::new();
    let mut a = AppState::new();
    let id = CallId { bits: 0xfeed };
    let args = ToolArgumentValues::InsertModel(rbx_studio_mcp::model::InsertModel {
        query: "tree".to_string(),
    });
    let envelope = ToolArguments::with_explicit_id(args, id);

    // B's stdio call enqueues locally
    let (tx_b, mut rx_b) = unbounded_channel::<CallResponse>();
    assert!(matches!(b.enqueue_call(envelope, tx_b), EnqueueOutcome::Enqueued(_)));

    // B's forwarder loop pops the envelope and posts it to A's proxy ingest
    let forwarded = b.poll_request().expect("forwarder must see the envelope");
    assert_eq!(forwarded.id, Some(id));
    let (tx_a, mut rx_a) = unbounded_channel::<CallResponse>();
    assert!(matches!(a.enqueue_call(forwarded, tx_a), EnqueueOutcome::Enqueued(_)));

    // the peer polls A and answers
    let popped = a.poll_request().expect("primary must see the envelope");
    assert_eq!(popped.id, Some(id));
    assert_eq!(
        a.deliver_reply(RunCommandResponse { response: "Tree1".to_string(), id }),
        DeliverOutcome::Delivered
    );
    let proxy_reply = rx_a.try_recv().unwrap().unwrap();
    assert_eq!(proxy_reply, "Tree1");
    a.finish_call(id);

    // B's forwarder routes the decoded reply to the waiting stdio call
    let tx = b.route_reply(id).expect("B must still hold the reply handle");
    tx.send(Ok(proxy_reply)).unwrap();
    let got = rx_b.try_recv().unwrap();
    match b.conclude_call(id, AwaitOutcome::Received(got)) {
        ToolOutcome::Success(text) => assert_eq!(text, "Tree1"),
        ToolOutcome::Error(e) => panic!("unexpected error: {e}"),
    }
    assert!(!b.is_pending(id));
}

#[test]
fn forward_failure_leaves_caller_pending_until_timeout() {
    let mut b = AppState::new();
    let (cmd, id) = run_code_envelope("x", 0xabc);
    let (tx, _rx) = unbounded_channel::<CallResponse>();
    assert!(matches!(b.enqueue_call(cmd, tx), EnqueueOutcome::Enqueued(_)));

    // the forwarder pops the envelope, but the primary is unreachable:
    // nothing is delivered, the registration stays until the caller times out
    let _lost = b.poll_request().expect("forwarder pops the envelope");
    assert!(b.is_pending(id));
    match b.conclude_call(id, AwaitOutcome::TimedOut) {
        ToolOutcome::Error(_) => {}
        ToolOutcome::Success(_) => panic!("an unanswered call cannot succeed"),
    }
    assert!(!b.is_pending(id));
}

#[test]
fn input_lane_fire_and_forget() {
    let mut state = AppState::new();
    let cmd = InputCommand {
        command_type: "input".to_string(),
        data: "{\"inputType\":\"keyboard\",\"key\":\"W\",\"action\":\"tap\"}".to_string(),
        id: CallId { bits: 5 },
        timestamp: 1234,
    };
    state.push_input(cmd);

    let first = state.poll_input();
    assert_eq!(first.count, 1);
    assert_eq!(first.commands.len(), 1);
    assert_eq!(first.commands[0].command_type, "input");
    assert_eq!(
        first.commands[0].data,
        "{\"inputType\":\"keyboard\",\"key\":\"W\",\"action\":\"tap\"}"
    );
    assert_eq!(first.commands[0].id, CallId { bits: 5 });
    assert_eq!(first.commands[0].timestamp, 1234);

    let second = state.poll_input();
    assert_eq!(second.count, 0);
    assert!(second.commands.is_empty());
}

#[test]
fn server_code_lane_round_trip() {
    let mut state = AppState::new();
    let id = CallId { bits: 77 };
    let cmd = ServerCodeCommand { id, code: "return 1 + 1".to_string(), timestamp: 9 };
    let (tx, mut rx) = unbounded_channel::<ServerCodeResult>();
    assert!(state.enqueue_server_code(cmd, tx));

    let polled = state.poll_server_code();
    assert_eq!(polled.count, 1);
    assert_eq!(polled.commands[0].code, "return 1 + 1");

    let result = ServerCodeResult {
        id,
        success: true,
        result: Some("2".to_string()),
        error: None,
    };
    assert_eq!(state.deliver_code_result(result), CodeDeliverOutcome::Delivered);
    let got = rx.try_recv().unwrap();
    match state.conclude_server_code(id, CodeAwaitOutcome::Received(got)) {
        ToolOutcome::Success(text) => assert_eq!(text, "2"),
        ToolOutcome::Error(e) => panic!("unexpected error: {e}"),
    }
}

#[test]
fn server_code_unknown_id_is_not_found() {
    let mut state = AppState::new();
    let result = ServerCodeResult {
        id: CallId::nil(),
        success: true,
        result: Some("ok".to_string()),
        error: None,
    };
    assert_eq!(state.deliver_code_result(result), CodeDeliverOutcome::UnknownId);
}

#[test]
fn closed_channel_is_reported_and_cleaned() {
    let mut state = AppState::new();
    let (cmd, id) = run_code_envelope("x", 0x5150);
    let (tx, rx) = unbounded_channel::<CallResponse>();
    assert!(matches!(state.enqueue_call(cmd, tx), EnqueueOutcome::Enqueued(_)));
    drop(rx);
    match state.conclude_call(id, AwaitOutcome::Closed) {
        ToolOutcome::Error(text) => assert_eq!(text, "Plugin channel closed without response"),
        ToolOutcome::Success(_) => panic!("a closed channel cannot succeed"),
    }
    assert!(!state.is_pending(id));
}

#[test]
fn error_reply_text_is_rendered() {
    let mut state = AppState::new();
    let (cmd, id) = run_code_envelope("x", 0x1111);
    let (tx, _rx) = unbounded_channel::<CallResponse>();
    assert!(matches!(state.enqueue_call(cmd, tx), EnqueueOutcome::Enqueued(_)));
    match state.conclude_call(id, AwaitOutcome::Received(Err(BridgeError::ForwardFailed))) {
        ToolOutcome::Error(text) => assert_eq!(text, "Failed to proxy"),
        ToolOutcome::Success(_) => panic!("an errored call cannot succeed"),
    }
}
