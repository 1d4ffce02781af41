use rbx_studio_mcp::errors::BridgeError;
use rbx_studio_mcp::ids::CallId;
use rbx_studio_mcp::model::{RunCode, RunCommandResponse, ServerCodeCommand, ServerCodeResult, ToolArgumentValues, ToolArguments};
use rbx_studio_mcp::state::{AppState, CallResponse, CodeDeliverOutcome, DeliverOutcome, EnqueueOutcome};
use tokio::sync::mpsc::unbounded_channel;

#[test]
fn error_messages() {
    assert_eq!(BridgeError::TriggerSendFailed.message(), "Failed to trigger command");
    assert_eq!(BridgeError::ResponseChannelClosed.message(), "Channel closed");
    assert_eq!(BridgeError::ResponseTimeout.message(), "Timeout");
    assert_eq!(BridgeError::UnknownReplyId.message(), "Unknown ID");
    assert_eq!(BridgeError::PortCleanupFailed.message(), "Failed to clean up port");
    assert_eq!(BridgeError::ForwardFailed.message(), "Failed to proxy");
    assert_eq!(BridgeError::ScreenshotFailed.message(), "Failed to capture screenshot");
}

#[test]
fn reply_to_dropped_receiver_reports_closed_channel() {
    let mut state = AppState::new();
    let id = CallId { bits: 0xd00d };
    let cmd = ToolArguments::with_explicit_id(
        ToolArgumentValues::RunCode(RunCode { command: "x".to_string() }),
        id,
    );
    let (tx, rx) = unbounded_channel::<CallResponse>();
    assert!(matches!(state.enqueue_call(cmd, tx), EnqueueOutcome::Enqueued(_)));
    drop(rx);
    let outcome = state.deliver_reply(RunCommandResponse { response: "late".to_string(), id });
    assert_eq!(outcome, DeliverOutcome::ChannelClosed);
    assert!(!state.is_pending(id));
}

#[test]
fn code_result_to_dropped_receiver_reports_receiver_gone() {
    let mut state = AppState::new();
    let id = CallId { bits: 0xbead };
    let cmd = ServerCodeCommand { id, code: "return 0".to_string(), timestamp: 0 };
    let (tx, rx) = unbounded_channel::<ServerCodeResult>();
    assert!(state.enqueue_server_code(cmd, tx));
    drop(rx);
    let outcome = state.deliver_code_result(ServerCodeResult {
        id,
        success: true,
        result: None,
        error: None,
    });
    assert_eq!(outcome, CodeDeliverOutcome::ReceiverGone);
}

#[test]
fn duplicate_server_code_id_is_rejected() {
    let mut state = AppState::new();
    let id = CallId { bits: 1 };
    let (tx1, _rx1) = unbounded_channel::<ServerCodeResult>();
    let (tx2, _rx2) = unbounded_channel::<ServerCodeResult>();
    assert!(state.enqueue_server_code(
        ServerCodeCommand { id, code: "a".to_string(), timestamp: 0 },
        tx1
    ));
    assert!(!state.enqueue_server_code(
        ServerCodeCommand { id, code: "b".to_string(), timestamp: 1 },
        tx2
    ));
    // the first command is still the only one queued
    let polled = state.poll_server_code();
    assert_eq!(polled.count, 1);
    assert_eq!(polled.commands[0].code, "a");
}
