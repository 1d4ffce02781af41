//! The data model of the bridge: the command envelope (a tagged union of
//! tool-specific argument records plus an identifier), the reply record, and
//! the records of the two auxiliary lanes.
//!
//! Coordinates that reach the bridge as floating-point numbers are carried
//! as their IEEE-754 bit patterns: the dispatcher never reads them, it only
//! routes them, and as plain bits they stay inside the verified model.

use vstd::prelude::*;

use crate::ids::{mint_call_id, CallId};

verus! {

#[derive(Clone, Debug)]
pub struct RunCode {
    pub command: String,
}

#[derive(Clone, Debug)]
pub struct InsertModel {
    pub query: String,
}

#[derive(Clone, Debug)]
pub struct WriteScript {
    pub path: String,
    pub source: String,
    pub script_type: Option<String>,
}

#[derive(Clone, Debug)]
pub struct ReadOutput {
    pub filter: Option<String>,
    pub max_lines: Option<u32>,
    pub clear_after_read: Option<bool>,
}

#[derive(Clone, Copy, Debug)]
pub struct GetStudioState {}

#[derive(Clone, Copy, Debug)]
pub struct StartPlaytest {}

#[derive(Clone, Copy, Debug)]
pub struct StartSimulation {}

#[derive(Clone, Copy, Debug)]
pub struct StopSimulation {}

#[derive(Clone, Copy, Debug)]
pub struct StopPlaytest {}

#[derive(Clone, Debug)]
pub struct MoveCharacter {
    /// Target X coordinate as an IEEE-754 double bit pattern.
    pub x_bits: u64,
    /// Target Y coordinate as an IEEE-754 double bit pattern.
    pub y_bits: u64,
    /// Target Z coordinate as an IEEE-754 double bit pattern.
    pub z_bits: u64,
    pub instant: Option<bool>,
    pub character_name: Option<String>,
}

#[derive(Clone, Debug)]
pub struct ValidateUI {
    pub path: Option<String>,
}

#[derive(Clone, Debug)]
pub struct CreateResponsiveLayout {
    pub name: String,
    pub containers: Vec<String>,
}

#[derive(Clone, Debug)]
pub struct PreviewLayout {
    /// Viewport width as an IEEE-754 double bit pattern.
    pub width_bits: u64,
    /// Viewport height as an IEEE-754 double bit pattern.
    pub height_bits: u64,
    pub path: Option<String>,
}

/// The closed sum of tool-specific argument records that travel through the
/// dispatch queue.  The two input-lane tools do not appear here: they go
/// through the auxiliary queue and never reach the long-poll peer this way.
#[derive(Clone, Debug)]
pub enum ToolArgumentValues {
    RunCode(RunCode),
    InsertModel(InsertModel),
    WriteScript(WriteScript),
    ReadOutput(ReadOutput),
    GetStudioState(GetStudioState),
    StartPlaytest(StartPlaytest),
    StartSimulation(StartSimulation),
    StopSimulation(StopSimulation),
    StopPlaytest(StopPlaytest),
    MoveCharacter(MoveCharacter),
    ValidateUI(ValidateUI),
    CreateResponsiveLayout(CreateResponsiveLayout),
    PreviewLayout(PreviewLayout),
}

/// A command envelope: tool arguments paired with an identifier.  The
/// identifier is always set once the envelope enters the queue; an absent
/// identifier on ingress is a programming error at the forwarder boundary
/// and is rejected there.
#[derive(Clone, Debug)]
pub struct ToolArguments {
    pub args: ToolArgumentValues,
    pub id: Option<CallId>,
}

impl ToolArguments {
    /// Builds an envelope around `args` with a freshly minted identifier.
    pub fn new(args: ToolArgumentValues) -> (r: (ToolArguments, CallId))
        ensures
            r.0.args == args,
            r.0.id == Some(r.1),
    {
        let e = ToolArguments { args, id: None };
        e.with_id()
    }

    /// Returns the envelope with a freshly minted identifier set, and that
    /// identifier.
    pub fn with_id(self) -> (r: (ToolArguments, CallId))
        ensures
            r.0.args == self.args,
            r.0.id == Some(r.1),
    {
        let id = mint_call_id();
        (ToolArguments { args: self.args, id: Some(id) }, id)
    }

    /// Builds an envelope with a caller-chosen identifier.
    pub fn with_explicit_id(args: ToolArgumentValues, id: CallId) -> (r: ToolArguments)
        ensures
            r.args == args,
            r.id == Some(id),
    {
        ToolArguments { args, id: Some(id) }
    }
}

/// A reply record: the identifier of the envelope it answers plus an opaque
/// response string that the dispatcher hands back verbatim.
#[derive(Clone, Debug)]
pub struct RunCommandResponse {
    pub response: String,
    pub id: CallId,
}

/// A fire-and-forget input command for the auxiliary lane.  `data` carries
/// the tool-specific payload as opaque JSON text.
#[derive(Clone, Debug)]
pub struct InputCommand {
    pub command_type: String,
    pub data: String,
    pub id: CallId,
    pub timestamp: u64,
}

/// A code-execution request for the second RPC lane.
#[derive(Clone, Debug)]
pub struct ServerCodeCommand {
    pub id: CallId,
    pub code: String,
    pub timestamp: u64,
}

/// The answer to a [`ServerCodeCommand`].
#[derive(Clone, Debug)]
pub struct ServerCodeResult {
    pub id: CallId,
    pub success: bool,
    pub result: Option<String>,
    pub error: Option<String>,
}

/// What one poll of the input lane hands to the peer: every pending command
/// and how many there are.
#[derive(Debug)]
pub struct InputPollResponse {
    pub commands: Vec<InputCommand>,
    pub count: usize,
}

/// The wrapping object in which an input command is ingested.
#[derive(Debug)]
pub struct InputCommandRequest {
    pub command: InputCommand,
}

/// What one poll of the server-code lane hands to the peer.
#[derive(Debug)]
pub struct ServerCodePollResponse {
    pub commands: Vec<ServerCodeCommand>,
    pub count: usize,
}

} // verus!
