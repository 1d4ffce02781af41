use rbx_studio_mcp::dispatch::{gui_click_message, input_queued_message};
use rbx_studio_mcp::ids::CallId;
use rbx_studio_mcp::scripts::{
    install_summary, parse_script_status, plan_script_installs, ScriptKind,
};

#[test]
fn probe_answer_all_installed() {
    let st = parse_script_status("true,true,true,true\n");
    assert!(st.poller && st.handler && st.movement && st.click_support);
    assert!(plan_script_installs(&st).is_empty());
    assert_eq!(install_summary(&plan_script_installs(&st)), None);
}

#[test]
fn probe_answer_partial() {
    let st = parse_script_status("true,false,true,false");
    assert!(st.poller);
    assert!(!st.handler);
    assert!(st.movement);
    assert!(!st.click_support);
    let plan = plan_script_installs(&st);
    assert_eq!(plan, vec![ScriptKind::InputHandler, ScriptKind::ClickSupport]);
    assert_eq!(
        install_summary(&plan).unwrap(),
        "MCPInputHandler (StarterPlayerScripts), MCPClickSupport (ReplicatedStorage)"
    );
}

#[test]
fn probe_answer_garbage_counts_as_missing() {
    let st = parse_script_status("nonsense");
    assert!(!st.poller && !st.handler && !st.movement && !st.click_support);
    let plan = plan_script_installs(&st);
    assert_eq!(plan.len(), 4);
    assert_eq!(
        install_summary(&plan).unwrap(),
        "MCPInputPoller (ServerScriptService), MCPInputHandler (StarterPlayerScripts), \
         MCPMovementHandler (StarterPlayerScripts), MCPClickSupport (ReplicatedStorage)"
    );
}

#[test]
fn script_kind_metadata() {
    assert_eq!(ScriptKind::InputPoller.path(), "ServerScriptService.MCPInputPoller");
    assert_eq!(ScriptKind::InputPoller.script_type(), "Script");
    assert_eq!(
        ScriptKind::InputHandler.path(),
        "StarterPlayer.StarterPlayerScripts.MCPInputHandler"
    );
    assert_eq!(ScriptKind::InputHandler.script_type(), "LocalScript");
    assert_eq!(ScriptKind::ClickSupport.script_type(), "ModuleScript");
}

#[test]
fn input_message_without_install() {
    let id = CallId { bits: 0x1234 };
    let m = input_queued_message("keyboard", "W", "tap", id, &None);
    assert_eq!(
        m,
        "Queued keyboard input: W tap (id: 00000000-0000-0000-0000-000000001234)."
    );
}

#[test]
fn input_message_with_install_note() {
    let id = CallId::nil();
    let names = Some("MCPInputPoller (ServerScriptService)".to_string());
    let m = input_queued_message("mouse", "Left", "begin", id, &names);
    assert!(m.starts_with(
        "Queued mouse input: Left begin (id: 00000000-0000-0000-0000-000000000000)."
    ));
    assert!(m.contains("Auto-installed required scripts: MCPInputPoller (ServerScriptService)."));
    assert!(m.ends_with("for the scripts to take effect."));
}

#[test]
fn click_message() {
    let id = CallId { bits: 0xabcdef };
    let m = gui_click_message("PlayerGui.MainUI.PlayButton", id, &None);
    assert_eq!(
        m,
        "Queued GUI click: PlayerGui.MainUI.PlayButton (id: 00000000-0000-0000-0000-000000abcdef)."
    );
}
