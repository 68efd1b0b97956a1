//! Construction of the JSON payloads sent to the engine and of the
//! human-readable messages the commands return, plus the mapping of HTTP
//! outcomes to each command's result.
//!
//! The payloads are built here as verified text, character by character, so
//! each contract pins the exact body that goes out on the wire.

use vstd::prelude::*;
use crate::digits::{dec_u8, spec_dec};
use crate::state::{EngineError, HttpOutcome};

verus! {

/// The empty JSON object sent to the engine's activation and deactivation
/// endpoints.
pub open spec fn spec_empty_payload() -> Seq<char> {
    "{}"@
}

/// The body of a blur-settings push: the intensity as the numeric strength,
/// and the enabled flag translated to the engine's mode vocabulary,
/// `"gaussian"` when enabled and `"none"` when not.
pub open spec fn spec_blur_payload(intensity: nat, enabled: bool) -> Seq<char> {
    "{\"strength\":"@ + spec_dec(intensity) + ",\"mode\":\""@ + (if enabled {
        "gaussian"@
    } else {
        "none"@
    }) + "\"}"@
}

/// The body of an AI-settings push: the performance-mode flag translated to
/// the engine's quality vocabulary, `"high"` or `"medium"`, and the
/// edge-smoothing flag to a smoothing amount, `0.8` or `0.3`.
pub open spec fn spec_ai_payload(performance_mode: bool, edge_smoothing: bool) -> Seq<char> {
    "{\"quality\":\""@ + (if performance_mode {
        "high"@
    } else {
        "medium"@
    }) + "\",\"smoothing\":"@ + (if edge_smoothing {
        "0.8"@
    } else {
        "0.3"@
    }) + "}"@
}

/// The report of a successful blur push, naming the pushed values.
pub open spec fn spec_blur_message(intensity: nat, enabled: bool) -> Seq<char> {
    "Blur updated: "@ + spec_dec(intensity) + "% ("@ + (if enabled {
        "ON"@
    } else {
        "OFF"@
    }) + ")"@
}

/// The report a start returns for each outcome of the activation call. The
/// spawn, not the remote activation, is the start's success criterion, so
/// every outcome maps to a message rather than an error.
pub open spec fn spec_start_message(outcome: HttpOutcome) -> Seq<char> {
    match outcome {
        HttpOutcome::Success => "Engine started successfully"@,
        HttpOutcome::NonSuccess(_) => "Engine process started, but the engine did not report a successful start"@,
        HttpOutcome::Unreachable => "Engine process started (still establishing connectivity)"@,
    }
}

/// The empty JSON object, for the activation and deactivation endpoints.
pub fn empty_payload_json() -> (r: String)
    ensures
        r@ == spec_empty_payload(),
{
    String::from_str("{}")
}

/// Build the body of a blur-settings push from the requested intensity and
/// enabled flag. Nothing is validated or stored locally: this is a pure
/// translation into the engine's vocabulary.
pub fn blur_payload_json(intensity: u8, enabled: bool) -> (r: String)
    ensures
        r@ == spec_blur_payload(intensity as nat, enabled),
{
    let d = dec_u8(intensity);
    let s = String::from_str("{\"strength\":").concat(d.as_str());
    let s = s.concat(",\"mode\":\"");
    let s = s.concat(if enabled {
        "gaussian"
    } else {
        "none"
    });
    let r = s.concat("\"}");
    assert(r@ =~= spec_blur_payload(intensity as nat, enabled));
    r
}

/// Build the body of an AI-settings push. The temporal-smoothing flag is
/// accepted from the caller but deliberately absent from the outgoing
/// payload — the engine's API takes only a quality and a smoothing amount —
/// and the contract states that the body does not depend on it.
pub fn ai_payload_json(performance_mode: bool, edge_smoothing: bool, temporal_smoothing: bool) -> (r:
    String)
    ensures
        r@ == spec_ai_payload(performance_mode, edge_smoothing),
{
    let s = String::from_str("{\"quality\":\"").concat(
        if performance_mode {
            "high"
        } else {
            "medium"
        },
    );
    let s = s.concat("\",\"smoothing\":");
    let s = s.concat(if edge_smoothing {
        "0.8"
    } else {
        "0.3"
    });
    let r = s.concat("}");
    assert(r@ =~= spec_ai_payload(performance_mode, edge_smoothing));
    r
}

/// The message a start returns for the given outcome of the remote
/// activation call.
pub fn start_message(outcome: HttpOutcome) -> (r: String)
    ensures
        r@ == spec_start_message(outcome),
{
    match outcome {
        HttpOutcome::Success => String::from_str("Engine started successfully"),
        HttpOutcome::NonSuccess(_) => String::from_str(
            "Engine process started, but the engine did not report a successful start",
        ),
        HttpOutcome::Unreachable => String::from_str(
            "Engine process started (still establishing connectivity)",
        ),
    }
}

/// Turn the outcome of a blur push into the command's result: a success
/// status yields the report of what was pushed; a non-success status is a
/// `RemoteRejected` with that code; an unreachable engine is a
/// `ConnectionError`. No local state is involved.
pub fn blur_push_result(intensity: u8, enabled: bool, outcome: HttpOutcome) -> (r: Result<
    String,
    EngineError,
>)
    ensures
        match outcome {
            HttpOutcome::Success => (r matches Ok(m) && m@ == spec_blur_message(
                intensity as nat,
                enabled,
            )),
            HttpOutcome::NonSuccess(code) => r == Err::<String, EngineError>(
                EngineError::RemoteRejected(code),
            ),
            HttpOutcome::Unreachable => r == Err::<String, EngineError>(
                EngineError::ConnectionError,
            ),
        },
{
    match outcome {
        HttpOutcome::Success => {
            let d = dec_u8(intensity);
            let s = String::from_str("Blur updated: ").concat(d.as_str());
            let s = s.concat("% (");
            let s = s.concat(if enabled {
                "ON"
            } else {
                "OFF"
            });
            let m = s.concat(")");
            assert(m@ =~= spec_blur_message(intensity as nat, enabled));
            Ok(m)
        },
        HttpOutcome::NonSuccess(code) => Err(EngineError::RemoteRejected(code)),
        HttpOutcome::Unreachable => Err(EngineError::ConnectionError),
    }
}

/// Turn the outcome of an AI push into the command's result, with the same
/// failure taxonomy as a blur push.
pub fn ai_push_result(outcome: HttpOutcome) -> (r: Result<String, EngineError>)
    ensures
        match outcome {
            HttpOutcome::Success => (r matches Ok(m) && m@ == "AI settings updated"@),
            HttpOutcome::NonSuccess(code) => r == Err::<String, EngineError>(
                EngineError::RemoteRejected(code),
            ),
            HttpOutcome::Unreachable => r == Err::<String, EngineError>(
                EngineError::ConnectionError,
            ),
        },
{
    match outcome {
        HttpOutcome::Success => Ok(String::from_str("AI settings updated")),
        HttpOutcome::NonSuccess(code) => Err(EngineError::RemoteRejected(code)),
        HttpOutcome::Unreachable => Err(EngineError::ConnectionError),
    }
}

/// The greeting returned to a caller checking that the control plane is up.
pub fn greet(name: &str) -> (r: String)
    ensures
        r@ == "Hello, "@ + name@ + "! StreamBlur Pro is working with Tauri v1! \u{1F389}"@,
{
    let s = String::from_str("Hello, ").concat(name);
    let r = s.concat("! StreamBlur Pro is working with Tauri v1! \u{1F389}");
    assert(r@ =~= "Hello, "@ + name@ + "! StreamBlur Pro is working with Tauri v1! \u{1F389}"@);
    r
}

} // verus!
