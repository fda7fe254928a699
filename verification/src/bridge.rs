//! The pass-through commands to the recorder plugin: how each one's failure
//! is reported, and the defaults they fill in.

use vstd::prelude::*;

use crate::error::{Error, ErrorKind};
use crate::text::concat_str;

verus! {

/// The recorder operations that the plugin passes through.
#[derive(Clone, Copy, Debug, PartialEq, Eq, Structural)]
pub enum RecorderCall {
    InitializeRuntime,
    StartRecording,
    StopRecording,
    SetHotkeyBindings,
    CaptureHotkey,
    GetRuntimeState,
    SetOutputDestination,
    GetOutputDestination,
    SetOverlayMode,
    GetOverlayMode,
}

/// How a recorder failure is reported: reads and the runtime's
/// initialization as `not_ready`, changes as `invalid_input`.
pub open spec fn recorder_failure_kind(call: RecorderCall) -> ErrorKind {
    match call {
        RecorderCall::InitializeRuntime => ErrorKind::NotReady,
        RecorderCall::GetRuntimeState => ErrorKind::NotReady,
        RecorderCall::GetOutputDestination => ErrorKind::NotReady,
        RecorderCall::GetOverlayMode => ErrorKind::NotReady,
        _ => ErrorKind::InvalidInput,
    }
}

/// The error reported when the recorder fails `call` with the text `e`.
pub fn recorder_failure(call: RecorderCall, e: &str) -> (r: Error)
    ensures
        r.is(recorder_failure_kind(call), e@),
{
    match call {
        RecorderCall::InitializeRuntime | RecorderCall::GetRuntimeState
        | RecorderCall::GetOutputDestination | RecorderCall::GetOverlayMode => Error::not_ready(e),
        _ => Error::invalid_input(e),
    }
}

/// The error of every recorder command when the recorder bridge is left out.
pub fn bridge_disabled() -> (r: Error)
    ensures
        r.is(ErrorKind::FeatureDisabled, "Recorder bridge is disabled"@),
{
    Error::feature_disabled("Recorder bridge is disabled")
}

/// The error when a recorder response cannot be turned into JSON.
pub fn bridge_serialization_failed(e: &str) -> (r: Error)
    ensures
        r.is(ErrorKind::GenerationFailed, "Bridge serialization failed: "@ + e@),
{
    let message = concat_str("Bridge serialization failed: ", e);
    Error::generation_failed(message.as_str())
}

/// The error when a recorder response does not fit the plugin's own shape.
pub fn bridge_conversion_failed(e: &str) -> (r: Error)
    ensures
        r.is(ErrorKind::GenerationFailed, "Bridge schema conversion failed: "@ + e@),
{
    let message = concat_str("Bridge schema conversion failed: ", e);
    Error::generation_failed(message.as_str())
}

/// How long hotkey capture waits: as asked, or 20 seconds.
pub fn capture_timeout_ms(timeout_ms: Option<u64>) -> (r: u64)
    ensures
        r == match timeout_ms {
            Some(t) => t,
            None => 20000,
        },
{
    match timeout_ms {
        Some(t) => t,
        None => 20000,
    }
}

} // verus!
