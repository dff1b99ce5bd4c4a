//! Classification of the VPN client's output lines.

use vstd::prelude::*;
use crate::text::{chars_of, contains, has_substring};

verus! {

/// What one line of the client's output means to the handshake.
#[derive(Clone, Copy, Debug, PartialEq, Eq, Structural)]
pub enum AuthEvent {
    /// The client asks for the user name.
    UsernamePrompt,
    /// The client asks for the password.
    PasswordPrompt,
    /// The tunnel is up.
    ConnectedSignal,
    /// The client reports that the credentials were rejected.
    AuthFailedSignal,
    /// Any other line; the handshake ignores it.
    Unclassified,
}

/// The phrases that the client prints, in the order in which a line is
/// tested against them.
pub open spec fn username_marker() -> Seq<char> {
    "Enter Auth Username:"@
}

pub open spec fn password_marker() -> Seq<char> {
    "Enter Auth Password:"@
}

pub open spec fn connected_marker() -> Seq<char> {
    "Initialization Sequence Completed"@
}

pub open spec fn auth_failed_marker() -> Seq<char> {
    "AUTH_FAILED"@
}

/// The meaning of a line: the first marker, in the fixed order user name,
/// password, completion, failure, that occurs anywhere in it decides; a line
/// that holds none of them is unclassified.
pub open spec fn classify(line: Seq<char>) -> AuthEvent {
    if has_substring(line, username_marker()) {
        AuthEvent::UsernamePrompt
    } else if has_substring(line, password_marker()) {
        AuthEvent::PasswordPrompt
    } else if has_substring(line, connected_marker()) {
        AuthEvent::ConnectedSignal
    } else if has_substring(line, auth_failed_marker()) {
        AuthEvent::AuthFailedSignal
    } else {
        AuthEvent::Unclassified
    }
}

/// Classifies one line of client output.
pub fn classify_line(line: &str) -> (event: AuthEvent)
    ensures
        event == classify(line@),
{
    let text = chars_of(line);
    if contains(&text, &chars_of("Enter Auth Username:")) {
        AuthEvent::UsernamePrompt
    } else if contains(&text, &chars_of("Enter Auth Password:")) {
        AuthEvent::PasswordPrompt
    } else if contains(&text, &chars_of("Initialization Sequence Completed")) {
        AuthEvent::ConnectedSignal
    } else if contains(&text, &chars_of("AUTH_FAILED")) {
        AuthEvent::AuthFailedSignal
    } else {
        AuthEvent::Unclassified
    }
}

} // verus!
