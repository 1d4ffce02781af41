//! The tail of a dispatcher call: after the await on the reply channel
//! ends — with a reply, with the channel closed, or by the deadline — the
//! reply registration is removed and the outcome is turned into what the
//! stdio surface reports.  Also the messages the input-lane tools answer
//! with.

use vstd::prelude::*;

use crate::errors::spec_error_message;
use crate::ids::{uuid_chars, CallId};
use crate::model::ServerCodeResult;
use crate::state::{
    code_reply_removed, reply_removed, state_unchanged, AppState, CallResponse,
};

verus! {

/// How the await on a reply channel ended.
pub enum AwaitOutcome {
    /// The channel delivered a response.
    Received(CallResponse),
    /// The channel closed without a response.
    Closed,
    /// The deadline passed first.
    TimedOut,
}

/// How the await on a server-code result channel ended.
pub enum CodeAwaitOutcome {
    /// The channel delivered a result.
    Received(ServerCodeResult),
    /// The channel closed without a result.
    Closed,
    /// The deadline passed first.
    TimedOut,
}

/// What a tool call reports on the stdio surface.
#[derive(Clone, Debug)]
pub enum ToolOutcome {
    /// A text result.
    Success(String),
    /// An error payload with its text.
    Error(String),
}

/// The error text when the reply channel closes without a response.
pub open spec fn spec_closed_message() -> Seq<char> {
    "Plugin channel closed without response"@
}

/// The error text when the reply deadline passes.
pub open spec fn spec_timeout_message() -> Seq<char> {
    "Tool execution timed out after 30s. The plugin may be unresponsive or Studio is in an unexpected state."@
}

/// The server-code result text: the carried result, or `nil` when none came.
pub open spec fn spec_code_success_text(res: ServerCodeResult) -> Seq<char> {
    match res.result {
        Some(s) => s@,
        None => "nil"@,
    }
}

/// The server-code error text.
pub open spec fn spec_code_error_text(res: ServerCodeResult) -> Seq<char> {
    "Server code error: "@ + (match res.error {
        Some(e) => e@,
        None => "Unknown error"@,
    })
}

/// The error text when the server-code result channel closes.
pub open spec fn spec_code_closed_message() -> Seq<char> {
    "Server code execution channel closed unexpectedly. Is the MCPServerCodeRunner script running?"@
}

/// The error text when the server-code deadline passes.
pub open spec fn spec_code_timeout_message() -> Seq<char> {
    "Server code execution timed out after 30s. Ensure:\n1. Studio is in playtest mode (F5)\n2. MCPServerCodeRunner script is in ServerScriptService\n3. The script is polling http://localhost:44755/mcp/server_code"@
}


/// The error text of the generated-code variant.
pub open spec fn spec_gen_code_error_text(res: ServerCodeResult) -> Seq<char> {
    "Error: "@ + (match res.error {
        Some(e) => e@,
        None => "Unknown error"@,
    })
}

/// The closed-channel text of the generated-code variant.
pub open spec fn spec_gen_code_closed_message() -> Seq<char> {
    "Server execution channel closed. Is MCPServerCodeRunner running?"@
}

/// The timeout text of the generated-code variant.
pub open spec fn spec_gen_code_timeout_message() -> Seq<char> {
    "Timed out after 30s. Ensure playtest is running with MCPServerCodeRunner."@
}

/// The note appended to an input-lane answer when helper scripts were just
/// installed.
pub open spec fn spec_install_note(names: Seq<char>) -> Seq<char> {
    "\n\nAuto-installed required scripts: "@ + names
        + ".\nNote: You must restart playtest (stop and F5 again) for the scripts to take effect."@
}

/// The answer of the input-simulation tool once its command is queued.
pub open spec fn spec_input_queued_message(
    input_type: Seq<char>,
    key: Seq<char>,
    action: Seq<char>,
    id: CallId,
    installed: Option<Seq<char>>,
) -> Seq<char> {
    "Queued "@ + input_type + " input: "@ + key + " "@ + action + " (id: "@ + uuid_chars(id.bits)
        + ")."@ + (match installed {
        Some(names) => spec_install_note(names),
        None => Seq::empty(),
    })
}

/// The answer of the interface-click tool once its command is queued.
pub open spec fn spec_gui_click_message(path: Seq<char>, id: CallId, installed: Option<Seq<char>>) -> Seq<
    char,
> {
    "Queued GUI click: "@ + path + " (id: "@ + uuid_chars(id.bits) + ")."@ + (match installed {
        Some(names) => spec_install_note(names),
        None => Seq::empty(),
    })
}

fn append_install_note(s: &mut String, installed: &Option<String>)
    ensures
        final(s)@ == old(s)@ + (match installed.deep_view() {
            Some(names) => spec_install_note(names),
            None => Seq::<char>::empty(),
        }),
{
    match installed {
        Some(names) => {
            s.append("\n\nAuto-installed required scripts: ");
            s.append(names.as_str());
            s.append(".\nNote: You must restart playtest (stop and F5 again) for the scripts to take effect.");
            proof {
                assert(s@ =~= old(s)@ + spec_install_note(names@));
            }
        },
        None => {
            proof {
                assert(s@ =~= old(s)@ + Seq::<char>::empty());
            }
        },
    }
}

/// Builds the input-simulation tool's answer.
pub fn input_queued_message(
    input_type: &str,
    key: &str,
    action: &str,
    id: CallId,
    installed: &Option<String>,
) -> (r: String)
    ensures
        r@ == spec_input_queued_message(
            input_type@,
            key@,
            action@,
            id,
            installed.deep_view(),
        ),
{
    let mut s = "Queued ".to_owned();
    s.append(input_type);
    s.append(" input: ");
    s.append(key);
    s.append(" ");
    s.append(action);
    s.append(" (id: ");
    let u = id.to_uuid_string();
    s.append(u.as_str());
    s.append(").");
    append_install_note(&mut s, installed);
    proof {
        assert(s@ =~= spec_input_queued_message(
            input_type@,
            key@,
            action@,
            id,
            installed.deep_view(),
        ));
    }
    s
}

/// Builds the interface-click tool's answer.
pub fn gui_click_message(path: &str, id: CallId, installed: &Option<String>) -> (r: String)
    ensures
        r@ == spec_gui_click_message(path@, id, installed.deep_view()),
{
    let mut s = "Queued GUI click: ".to_owned();
    s.append(path);
    s.append(" (id: ");
    let u = id.to_uuid_string();
    s.append(u.as_str());
    s.append(").");
    append_install_note(&mut s, installed);
    proof {
        assert(s@ =~= spec_gui_click_message(path@, id, installed.deep_view()));
    }
    s
}

impl AppState {
    /// Ends a dispatcher call: removes the reply registration — on every
    /// outcome, so no entry can leak — and maps the outcome to what the
    /// stdio surface reports.  A received response is returned verbatim.
    pub fn conclude_call(&mut self, id: CallId, outcome: AwaitOutcome) -> (r: ToolOutcome)
        requires
            old(self).wf(),
        ensures
            final(self).wf(),
            !final(self).has_pending(id),
            old(self).has_pending(id) ==> reply_removed(*old(self), id, *final(self)),
            !old(self).has_pending(id) ==> state_unchanged(*old(self), *final(self)),
            outcome matches AwaitOutcome::Received(Ok(s)) ==> (r matches ToolOutcome::Success(t)
                && t == s),
            outcome matches AwaitOutcome::Received(Err(e)) ==> (r matches ToolOutcome::Error(t)
                && t@ == spec_error_message(e)),
            outcome is Closed ==> (r matches ToolOutcome::Error(t) && t@
                == spec_closed_message()),
            outcome is TimedOut ==> (r matches ToolOutcome::Error(t) && t@
                == spec_timeout_message()),
    {
        self.finish_call(id);
        match outcome {
            AwaitOutcome::Received(Ok(s)) => ToolOutcome::Success(s),
            AwaitOutcome::Received(Err(e)) => ToolOutcome::Error(e.message()),
            AwaitOutcome::Closed => ToolOutcome::Error(
                "Plugin channel closed without response".to_owned(),
            ),
            AwaitOutcome::TimedOut => ToolOutcome::Error(
                "Tool execution timed out after 30s. The plugin may be unresponsive or Studio is in an unexpected state.".to_owned(),
            ),
        }
    }

    /// Ends a raw dispatcher call (the probe path): like
    /// [`AppState::conclude_call`], but reporting plain strings.
    pub fn conclude_call_raw(&mut self, id: CallId, outcome: AwaitOutcome) -> (r: Result<
        String,
        String,
    >)
        requires
            old(self).wf(),
        ensures
            final(self).wf(),
            !final(self).has_pending(id),
            old(self).has_pending(id) ==> reply_removed(*old(self), id, *final(self)),
            !old(self).has_pending(id) ==> state_unchanged(*old(self), *final(self)),
            outcome matches AwaitOutcome::Received(Ok(s)) ==> (r matches Ok(t) && t == s),
            outcome matches AwaitOutcome::Received(Err(e)) ==> (r matches Err(t) && t@
                == spec_error_message(e)),
            outcome is Closed ==> (r matches Err(t) && t@ == "Channel closed"@),
            outcome is TimedOut ==> (r matches Err(t) && t@ == "Timeout"@),
    {
        self.finish_call(id);
        match outcome {
            AwaitOutcome::Received(Ok(s)) => Ok(s),
            AwaitOutcome::Received(Err(e)) => Err(e.message()),
            AwaitOutcome::Closed => Err("Channel closed".to_owned()),
            AwaitOutcome::TimedOut => Err("Timeout".to_owned()),
        }
    }

    /// Ends a server-code call: removes the result registration on every
    /// outcome and maps the outcome to what the stdio surface reports.
    pub fn conclude_server_code(&mut self, id: CallId, outcome: CodeAwaitOutcome) -> (r:
        ToolOutcome)
        requires
            old(self).wf(),
        ensures
            final(self).wf(),
            !final(self).has_code_pending(id),
            old(self).has_code_pending(id) ==> code_reply_removed(*old(self), id, *final(self)),
            !old(self).has_code_pending(id) ==> state_unchanged(*old(self), *final(self)),
            outcome matches CodeAwaitOutcome::Received(res) ==> (if res.success {
                r matches ToolOutcome::Success(t) && t@ == spec_code_success_text(res)
            } else {
                r matches ToolOutcome::Error(t) && t@ == spec_code_error_text(res)
            }),
            outcome is Closed ==> (r matches ToolOutcome::Error(t) && t@
                == spec_code_closed_message()),
            outcome is TimedOut ==> (r matches ToolOutcome::Error(t) && t@
                == spec_code_timeout_message()),
    {
        self.finish_server_code(id);
        match outcome {
            CodeAwaitOutcome::Received(res) => {
                if res.success {
                    match res.result {
                        Some(s) => ToolOutcome::Success(s),
                        None => ToolOutcome::Success("nil".to_owned()),
                    }
                } else {
                    let mut t = "Server code error: ".to_owned();
                    match res.error {
                        Some(e) => t.append(e.as_str()),
                        None => t.append("Unknown error"),
                    }
                    ToolOutcome::Error(t)
                }
            },
            CodeAwaitOutcome::Closed => ToolOutcome::Error(
                "Server code execution channel closed unexpectedly. Is the MCPServerCodeRunner script running?".to_owned(),
            ),
            CodeAwaitOutcome::TimedOut => ToolOutcome::Error(
                "Server code execution timed out after 30s. Ensure:\n1. Studio is in playtest mode (F5)\n2. MCPServerCodeRunner script is in ServerScriptService\n3. The script is polling http://localhost:44755/mcp/server_code".to_owned(),
            ),
        }
    }

    /// Ends a generated server-code call (the remote-event path): like
    /// [`AppState::conclude_server_code`], with the briefer texts of that
    /// path.
    pub fn conclude_generated_server_code(&mut self, id: CallId, outcome: CodeAwaitOutcome) -> (r:
        ToolOutcome)
        requires
            old(self).wf(),
        ensures
            final(self).wf(),
            !final(self).has_code_pending(id),
            old(self).has_code_pending(id) ==> code_reply_removed(*old(self), id, *final(self)),
            !old(self).has_code_pending(id) ==> state_unchanged(*old(self), *final(self)),
            outcome matches CodeAwaitOutcome::Received(res) ==> (if res.success {
                r matches ToolOutcome::Success(t) && t@ == spec_code_success_text(res)
            } else {
                r matches ToolOutcome::Error(t) && t@ == spec_gen_code_error_text(res)
            }),
            outcome is Closed ==> (r matches ToolOutcome::Error(t) && t@
                == spec_gen_code_closed_message()),
            outcome is TimedOut ==> (r matches ToolOutcome::Error(t) && t@
                == spec_gen_code_timeout_message()),
    {
        self.finish_server_code(id);
        match outcome {
            CodeAwaitOutcome::Received(res) => {
                if res.success {
                    match res.result {
                        Some(s) => ToolOutcome::Success(s),
                        None => ToolOutcome::Success("nil".to_owned()),
                    }
                } else {
                    let mut t = "Error: ".to_owned();
                    match res.error {
                        Some(e) => t.append(e.as_str()),
                        None => t.append("Unknown error"),
                    }
                    ToolOutcome::Error(t)
                }
            },
            CodeAwaitOutcome::Closed => ToolOutcome::Error(
                "Server execution channel closed. Is MCPServerCodeRunner running?".to_owned(),
            ),
            CodeAwaitOutcome::TimedOut => ToolOutcome::Error(
                "Timed out after 30s. Ensure playtest is running with MCPServerCodeRunner.".to_owned(),
            ),
        }
    }
}

} // verus!
