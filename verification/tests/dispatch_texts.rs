use rbx_studio_mcp::dispatch::{CodeAwaitOutcome, ToolOutcome};
use rbx_studio_mcp::ids::CallId;
use rbx_studio_mcp::model::ServerCodeResult;
use rbx_studio_mcp::state::AppState;

#[test]
fn server_code_nil_result_text() {
    let mut state = AppState::new();
    let id = CallId { bits: 1 };
    let res = ServerCodeResult { id, success: true, result: None, error: None };
    match state.conclude_server_code(id, CodeAwaitOutcome::Received(res)) {
        ToolOutcome::Success(text) => assert_eq!(text, "nil"),
        ToolOutcome::Error(e) => panic!("unexpected error: {e}"),
    }
}

#[test]
fn server_code_error_text() {
    let mut state = AppState::new();
    let id = CallId { bits: 2 };
    let res = ServerCodeResult {
        id,
        success: false,
        result: None,
        error: Some("attempt to index nil".to_string()),
    };
    match state.conclude_server_code(id, CodeAwaitOutcome::Received(res)) {
        ToolOutcome::Error(text) => {
            assert_eq!(text, "Server code error: attempt to index nil");
        }
        ToolOutcome::Success(_) => panic!("a failed result cannot succeed"),
    }
}

#[test]
fn server_code_unknown_error_text() {
    let mut state = AppState::new();
    let id = CallId { bits: 3 };
    let res = ServerCodeResult { id, success: false, result: None, error: None };
    match state.conclude_server_code(id, CodeAwaitOutcome::Received(res)) {
        ToolOutcome::Error(text) => assert_eq!(text, "Server code error: Unknown error"),
        ToolOutcome::Success(_) => panic!("a failed result cannot succeed"),
    }
}

#[test]
fn server_code_timeout_text() {
    let mut state = AppState::new();
    let id = CallId { bits: 4 };
    match state.conclude_server_code(id, CodeAwaitOutcome::TimedOut) {
        ToolOutcome::Error(text) => {
            assert!(text.starts_with("Server code execution timed out after 30s."));
            assert!(text.contains("/mcp/server_code"));
        }
        ToolOutcome::Success(_) => panic!("a timeout cannot succeed"),
    }
}

#[test]
fn generated_server_code_texts() {
    let mut state = AppState::new();
    let id = CallId { bits: 5 };
    let res = ServerCodeResult {
        id,
        success: false,
        result: None,
        error: Some("boom".to_string()),
    };
    match state.conclude_generated_server_code(id, CodeAwaitOutcome::Received(res)) {
        ToolOutcome::Error(text) => assert_eq!(text, "Error: boom"),
        ToolOutcome::Success(_) => panic!("a failed result cannot succeed"),
    }
    match state.conclude_generated_server_code(id, CodeAwaitOutcome::TimedOut) {
        ToolOutcome::Error(text) => {
            assert_eq!(text, "Timed out after 30s. Ensure playtest is running with MCPServerCodeRunner.");
        }
        ToolOutcome::Success(_) => panic!("a timeout cannot succeed"),
    }
}
