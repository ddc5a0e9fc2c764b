//! The discovery layer's error model, and the operator-facing text each
//! error renders to.
//!
//! A failed single-device operation must let an operator tell a network
//! problem from a firmware rejection, so a device's failure keeps both the
//! HTTP status code and, for a settings update, the body text it answered
//! with.

use vstd::prelude::*;

use crate::text::{spec_dec_digits, u32_to_dec};

verus! {

/// Why a subnet string was rejected.
#[derive(Debug)]
pub enum SubnetFault {
    /// The string does not consist of exactly three dot-separated parts.
    WrongPartCount,
    /// The named part is not a decimal octet.
    BadOctet(String),
}

/// How a reached device failed a command.
#[derive(Debug)]
pub enum HttpFailure {
    /// The request never produced a response; carries the transport's own
    /// error text.
    Transport(String),
    /// The device answered outside the success range.
    Status { code: u16, body: String },
}

/// The terminal errors the discovery and command layer surfaces.
#[derive(Debug)]
pub enum MinerError {
    /// The scan input was rejected before any network work.
    MalformedSubnet(SubnetFault),
    /// Every candidate path failed for the named address.
    ConnectionExhausted(String),
    /// The restart command failed.
    RestartFailed(HttpFailure),
    /// The settings update failed.
    SettingsUpdateFailed(HttpFailure),
}

/// The text an error renders to.
pub open spec fn spec_message(e: MinerError) -> Seq<char> {
    match e {
        MinerError::MalformedSubnet(SubnetFault::WrongPartCount) => {
            "Invalid subnet format. Expected format: 192.168.1"@
        },
        MinerError::MalformedSubnet(SubnetFault::BadOctet(p)) => "Invalid subnet octet: "@ + p@,
        MinerError::ConnectionExhausted(ip) => "Failed to connect to miner at "@ + ip@,
        MinerError::RestartFailed(HttpFailure::Transport(t)) => t@,
        MinerError::RestartFailed(HttpFailure::Status { code, .. }) => {
            "Miner restart failed with status: "@ + spec_dec_digits(code as nat)
        },
        MinerError::SettingsUpdateFailed(HttpFailure::Transport(t)) => t@,
        MinerError::SettingsUpdateFailed(HttpFailure::Status { code, body }) => {
            "Failed to update settings ("@ + spec_dec_digits(code as nat) + "): "@ + body@
        },
    }
}

impl MinerError {
    /// Renders the error for an operator.
    pub fn message(&self) -> (r: String)
        ensures
            r@ == spec_message(*self),
    {
        match self {
            MinerError::MalformedSubnet(SubnetFault::WrongPartCount) => {
                String::from_str("Invalid subnet format. Expected format: 192.168.1")
            },
            MinerError::MalformedSubnet(SubnetFault::BadOctet(p)) => {
                String::from_str("Invalid subnet octet: ").concat(p.as_str())
            },
            MinerError::ConnectionExhausted(ip) => {
                String::from_str("Failed to connect to miner at ").concat(ip.as_str())
            },
            MinerError::RestartFailed(HttpFailure::Transport(t)) => t.clone(),
            MinerError::RestartFailed(HttpFailure::Status { code, .. }) => {
                String::from_str("Miner restart failed with status: ").concat(
                    u32_to_dec(*code as u32).as_str(),
                )
            },
            MinerError::SettingsUpdateFailed(HttpFailure::Transport(t)) => t.clone(),
            MinerError::SettingsUpdateFailed(HttpFailure::Status { code, body }) => {
                String::from_str("Failed to update settings (").concat(
                    u32_to_dec(*code as u32).as_str(),
                ).concat("): ").concat(body.as_str())
            },
        }
    }
}

} // verus!
