//! The words in which results are shown to the user.

use vstd::prelude::*;
use crate::provision::ProvisionError;
use crate::session::{Action, SessionError};

verus! {

/// What the user is told of a session error. Where the hosting program
/// knows more (a path, the system's own words), it adds that after a colon.
pub open spec fn session_error_text(e: SessionError) -> Seq<char> {
    match e {
        SessionError::AdapterUnavailable => "No usable TAP adapter"@,
        SessionError::CredentialLookupFailed => "Failed to get password"@,
        SessionError::BinaryNotFound => "OpenVPN binary not found"@,
        SessionError::ConfigNotFound => "Config file not found"@,
        SessionError::AlreadyConnected => "VPN is already running. Please disconnect first."@,
        SessionError::SpawnFailed => "Failed to start OpenVPN"@,
        SessionError::AuthenticationFailed =>
            "Authentication failed. Please check your credentials."@,
        SessionError::ConnectionTimeout => "Connection timed out waiting for authentication"@,
        SessionError::TerminationFailed => "Failed to kill OpenVPN process"@,
    }
}

/// What the user is told of a provisioning error.
pub open spec fn provision_error_text(e: ProvisionError) -> Seq<char> {
    match e {
        ProvisionError::ElevationRequired =>
            "No TAP adapter found. Please run the application as administrator to set up the VPN adapter."@,
        ProvisionError::ToolExecutionFailed => "Failed to execute tapctl"@,
        ProvisionError::CreationFailed => "Failed to create TAP adapter"@,
        ProvisionError::VerificationFailed =>
            "TAP adapter creation seemed to succeed but no adapter is present."@,
        ProvisionError::InstallTimeout => "OpenVPN installation timed out"@,
    }
}

impl SessionError {
    /// The error in words.
    pub fn message(self) -> (r: &'static str)
        ensures
            r@ == session_error_text(self),
    {
        match self {
            SessionError::AdapterUnavailable => "No usable TAP adapter",
            SessionError::CredentialLookupFailed => "Failed to get password",
            SessionError::BinaryNotFound => "OpenVPN binary not found",
            SessionError::ConfigNotFound => "Config file not found",
            SessionError::AlreadyConnected => "VPN is already running. Please disconnect first.",
            SessionError::SpawnFailed => "Failed to start OpenVPN",
            SessionError::AuthenticationFailed =>
                "Authentication failed. Please check your credentials.",
            SessionError::ConnectionTimeout => "Connection timed out waiting for authentication",
            SessionError::TerminationFailed => "Failed to kill OpenVPN process",
        }
    }
}

impl ProvisionError {
    /// The error in words.
    pub fn message(self) -> (r: &'static str)
        ensures
            r@ == provision_error_text(self),
    {
        match self {
            ProvisionError::ElevationRequired =>
                "No TAP adapter found. Please run the application as administrator to set up the VPN adapter.",
            ProvisionError::ToolExecutionFailed => "Failed to execute tapctl",
            ProvisionError::CreationFailed => "Failed to create TAP adapter",
            ProvisionError::VerificationFailed =>
                "TAP adapter creation seemed to succeed but no adapter is present.",
            ProvisionError::InstallTimeout => "OpenVPN installation timed out",
        }
    }
}

/// What a disconnect request reports once its action was carried out
/// without error: that the tunnel was taken down, or that there was none.
pub fn disconnect_message(action: Action) -> (r: &'static str)
    ensures
        r@ == if action == Action::Kill {
            "Disconnected from VPN"@
        } else {
            "Not connected to VPN"@
        },
{
    match action {
        Action::Kill => "Disconnected from VPN",
        _ => "Not connected to VPN",
    }
}

} // verus!
