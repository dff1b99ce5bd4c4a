//! The credential that a connection uses, as the program holds it in memory.
//!
//! The vault itself lives outside: the hosting program stores, retrieves and
//! erases secrets in it and tells this module what came back.

use vstd::prelude::*;
use crate::session::SessionError;

verus! {

/// A credential for the VPN.
#[derive(Debug, Clone)]
pub struct VpnCredentials {
    pub password: String,
}

/// The credential that was saved last, if any.
pub struct CredentialsState {
    pub credentials: Option<VpnCredentials>,
}

/// The vault service under which every secret of the program is kept.
pub fn vault_service() -> (r: &'static str)
    ensures
        r@ == "GekkoVPN"@,
{
    "GekkoVPN"
}

/// The vault account that holds a password until its user is known.
pub fn pending_account() -> (r: &'static str)
    ensures
        r@ == "temp_credentials"@,
{
    "temp_credentials"
}

impl CredentialsState {
    /// A state with nothing saved.
    pub fn new() -> (s: CredentialsState)
        ensures
            s.credentials is None,
    {
        CredentialsState { credentials: None }
    }

    /// Keeps `password` as the credential saved last.
    pub fn remember(&mut self, password: String)
        ensures
            final(self).credentials is Some,
            final(self).credentials->0.password@ == password@,
    {
        self.credentials = Some(VpnCredentials { password });
    }

    /// Forgets the saved credential.
    pub fn forget(&mut self)
        ensures
            final(self).credentials is None,
    {
        self.credentials = None;
    }
}

/// What a connection makes of the vault's answer: the secret where one was
/// found, `CredentialLookupFailed` where none was.
pub fn require_credential(found: Option<String>) -> (r: Result<String, SessionError>)
    ensures
        found is Some ==> r is Ok && r->Ok_0@ == found->0@,
        found is None ==> r == Err::<String, SessionError>(SessionError::CredentialLookupFailed),
{
    match found {
        Some(secret) => Ok(secret),
        None => Err(SessionError::CredentialLookupFailed),
    }
}

} // verus!
