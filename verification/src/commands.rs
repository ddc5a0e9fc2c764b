//! The targeted command client: how the restart and settings-update
//! operations interpret what a known device answered.
//!
//! Both commands go to a single fixed path — a device addressed directly
//! is assumed to speak the right firmware dialect, so there is no path
//! fallback here. Both tolerate a success response with an unparseable
//! body: some firmware acknowledges a command with an empty body, and that
//! is a success, not an error.

use vstd::prelude::*;

use crate::errors::{HttpFailure, MinerError};
use crate::http::{spec_status_ok, status_ok, HttpEvent};
use crate::json::{json_fields_of, parse_json_fields};
use crate::text::{spec_dec_digits, u32_to_dec};

verus! {

/// The fixed path the restart command posts to.
pub open spec fn spec_restart_path() -> Seq<char> {
    "/api/system/restart"@
}

/// The path the restart command posts to.
pub fn restart_path() -> (r: String)
    ensures
        r@ == spec_restart_path(),
{
    String::from_str("/api/system/restart")
}

/// The fixed path the settings update patches.
pub open spec fn spec_settings_path() -> Seq<char> {
    "/api/system"@
}

/// The path the settings update patches.
pub fn settings_path() -> (r: String)
    ensures
        r@ == spec_settings_path(),
{
    String::from_str("/api/system")
}

/// A settings update: both tunables travel together in one request;
/// partial updates are not modelled.
#[derive(Debug)]
pub struct MinerSettingsUpdate {
    pub frequency: u32,
    pub core_voltage: u32,
}

/// The JSON body a settings update sends.
pub open spec fn spec_settings_payload(frequency: nat, core_voltage: nat) -> Seq<char> {
    "{\"frequency\":"@ + spec_dec_digits(frequency) + ",\"coreVoltage\":"@ + spec_dec_digits(
        core_voltage,
    ) + "}"@
}

/// Serializes a settings update into the request body the device expects.
pub fn settings_payload(update: &MinerSettingsUpdate) -> (r: String)
    ensures
        r@ == spec_settings_payload(update.frequency as nat, update.core_voltage as nat),
{
    String::from_str("{\"frequency\":").concat(u32_to_dec(update.frequency).as_str()).concat(
        ",\"coreVoltage\":",
    ).concat(u32_to_dec(update.core_voltage).as_str()).concat("}")
}

/// What a successful command hands back.
#[derive(Debug)]
pub enum CommandReply {
    /// The device's own reply body, which parsed as JSON.
    DeviceReply(String),
    /// The synthetic acknowledgment used when a device confirmed the
    /// command with a success status but an unparseable (often empty)
    /// body.
    Acknowledged,
}

/// What the restart command must return for a given outcome of its one
/// request: a transport failure or a non-success status fails with the
/// transport text or the status; a success status yields the reply body
/// when it parses as JSON and the synthetic acknowledgment when it does
/// not.
pub open spec fn spec_restart_outcome(event: HttpEvent, r: Result<CommandReply, MinerError>) -> bool {
    match event {
        HttpEvent::TransportFailed(t) => r matches Err(
            MinerError::RestartFailed(HttpFailure::Transport(m)),
        ) && m@ == t@,
        HttpEvent::Responded { status, body } => {
            if !spec_status_ok(status) {
                r matches Err(MinerError::RestartFailed(HttpFailure::Status { code, body: eb }))
                    && code == status && eb@ == body@
            } else if json_fields_of(body@) is Some {
                r matches Ok(CommandReply::DeviceReply(b)) && b@ == body@
            } else {
                r matches Ok(CommandReply::Acknowledged)
            }
        },
    }
}

/// Judges the outcome of the restart command.
pub fn restart_result(event: &HttpEvent) -> (r: Result<CommandReply, MinerError>)
    ensures
        spec_restart_outcome(*event, r),
{
    match event {
        HttpEvent::TransportFailed(t) => {
            Err(MinerError::RestartFailed(HttpFailure::Transport(t.clone())))
        },
        HttpEvent::Responded { status, body } => {
            if status_ok(*status) {
                match parse_json_fields(body.as_str()) {
                    Some(_) => Ok(CommandReply::DeviceReply(body.clone())),
                    None => Ok(CommandReply::Acknowledged),
                }
            } else {
                Err(
                    MinerError::RestartFailed(
                        HttpFailure::Status { code: *status, body: body.clone() },
                    ),
                )
            }
        },
    }
}

/// What the settings update must return for a given outcome of its one
/// request. The success handling is the same body-tolerant one as for
/// restart; a failure status keeps both the code and the reply body,
/// since the device's text is the only diagnostic an operator gets.
pub open spec fn spec_update_outcome(event: HttpEvent, r: Result<CommandReply, MinerError>) -> bool {
    match event {
        HttpEvent::TransportFailed(t) => r matches Err(
            MinerError::SettingsUpdateFailed(HttpFailure::Transport(m)),
        ) && m@ == t@,
        HttpEvent::Responded { status, body } => {
            if !spec_status_ok(status) {
                r matches Err(
                    MinerError::SettingsUpdateFailed(HttpFailure::Status { code, body: eb }),
                ) && code == status && eb@ == body@
            } else if json_fields_of(body@) is Some {
                r matches Ok(CommandReply::DeviceReply(b)) && b@ == body@
            } else {
                r matches Ok(CommandReply::Acknowledged)
            }
        },
    }
}

/// Judges the outcome of the settings update.
pub fn update_settings_result(event: &HttpEvent) -> (r: Result<CommandReply, MinerError>)
    ensures
        spec_update_outcome(*event, r),
{
    match event {
        HttpEvent::TransportFailed(t) => {
            Err(MinerError::SettingsUpdateFailed(HttpFailure::Transport(t.clone())))
        },
        HttpEvent::Responded { status, body } => {
            if status_ok(*status) {
                match parse_json_fields(body.as_str()) {
                    Some(_) => Ok(CommandReply::DeviceReply(body.clone())),
                    None => Ok(CommandReply::Acknowledged),
                }
            } else {
                Err(
                    MinerError::SettingsUpdateFailed(
                        HttpFailure::Status { code: *status, body: body.clone() },
                    ),
                )
            }
        },
    }
}

} // verus!
