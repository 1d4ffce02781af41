//! Error kinds of the bridge and their user-visible texts.

use vstd::prelude::*;

verus! {

/// Everything that can go wrong on a bridge path.  Timeouts and unknown
/// identifiers are recovered locally; port cleanup and forward failures are
/// non-fatal and the affected call simply times out.
#[derive(Clone, Copy, Debug, PartialEq, Eq, Structural)]
pub enum BridgeError {
    TriggerSendFailed,
    ResponseChannelClosed,
    ResponseTimeout,
    UnknownReplyId,
    PortCleanupFailed,
    ForwardFailed,
    ScreenshotFailed,
}

/// The text shown for each error kind.
pub open spec fn spec_error_message(e: BridgeError) -> Seq<char> {
    match e {
        BridgeError::TriggerSendFailed => "Failed to trigger command"@,
        BridgeError::ResponseChannelClosed => "Channel closed"@,
        BridgeError::ResponseTimeout => "Timeout"@,
        BridgeError::UnknownReplyId => "Unknown ID"@,
        BridgeError::PortCleanupFailed => "Failed to clean up port"@,
        BridgeError::ForwardFailed => "Failed to proxy"@,
        BridgeError::ScreenshotFailed => "Failed to capture screenshot"@,
    }
}

impl BridgeError {
    /// User-visible text of the error.
    pub fn message(&self) -> (r: String)
        ensures
            r@ == spec_error_message(*self),
    {
        match self {
            BridgeError::TriggerSendFailed => "Failed to trigger command".to_owned(),
            BridgeError::ResponseChannelClosed => "Channel closed".to_owned(),
            BridgeError::ResponseTimeout => "Timeout".to_owned(),
            BridgeError::UnknownReplyId => "Unknown ID".to_owned(),
            BridgeError::PortCleanupFailed => "Failed to clean up port".to_owned(),
            BridgeError::ForwardFailed => "Failed to proxy".to_owned(),
            BridgeError::ScreenshotFailed => "Failed to capture screenshot".to_owned(),
        }
    }
}

} // verus!
