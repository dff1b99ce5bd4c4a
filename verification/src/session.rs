//! The handshake state machine of one tunnel session.
//!
//! A [`Session`] never touches the client process itself. Each method takes
//! what the hosting control loop observed (the process was spawned, a line was
//! classified, time has passed) and answers with the [`Action`] that the loop
//! must perform next.

use vstd::prelude::*;
use crate::event::AuthEvent;

verus! {

/// How many times credentials are sent again in answer to prompts.
pub const MAX_AUTH_ATTEMPTS: u32 = 2;

/// The time budget of one connection attempt, in milliseconds.
pub const DEADLINE_MS: u64 = 30_000;

/// How long the control loop waits for the next event before it looks at the
/// clock again, in milliseconds.
pub const POLL_INTERVAL_MS: u64 = 100;

/// The pause before a password is written, in milliseconds. The client reads
/// its prompt answer late; a password sent at once may be lost.
pub const PASSWORD_PAUSE_MS: u64 = 500;

/// Where a session stands in its life.
#[derive(Clone, Copy, Debug, PartialEq, Eq, Structural)]
pub enum SessionStatus {
    Idle,
    Starting,
    AwaitingAuth,
    Connected,
    Failed,
    Disconnected,
}

/// Why a connection request or a disconnect did not succeed.
#[derive(Clone, Copy, Debug, PartialEq, Eq, Structural)]
pub enum SessionError {
    AdapterUnavailable,
    CredentialLookupFailed,
    BinaryNotFound,
    ConfigNotFound,
    AlreadyConnected,
    SpawnFailed,
    AuthenticationFailed,
    ConnectionTimeout,
    TerminationFailed,
}

/// What the control loop has to do after it reported something to a session.
#[derive(Clone, Copy, Debug, PartialEq, Eq, Structural)]
pub enum Action {
    /// Nothing; go on.
    Nothing,
    /// Write the user name, pause for [`PASSWORD_PAUSE_MS`], write the password.
    SendCredentials,
    /// Write the user name again.
    SendUsername,
    /// Pause for [`PASSWORD_PAUSE_MS`], then write the password again.
    PauseThenSendPassword,
    /// Wait up to [`POLL_INTERVAL_MS`] for the next event.
    Wait,
    /// The tunnel is up: keep the process and report success.
    Succeed,
    /// Kill the client process, ignoring a failure to do so, and report the error.
    Abort(SessionError),
    /// No process exists: report the error.
    Report(SessionError),
    /// Kill the client process on request; a failure to do so is an error.
    Kill,
}

/// The abstract state of a session.
pub ghost struct SessionModel {
    pub status: SessionStatus,
    /// The network that the session is for, while there is one.
    pub endpoint: Option<Seq<char>>,
    /// Whether the session owns a client process.
    pub live: bool,
    /// How many prompts were answered by sending a credential again.
    pub attempts: nat,
}

/// What the checks made before a connection attempt have found.
#[derive(Clone, Copy, Debug, PartialEq, Eq, Structural)]
pub struct Preflight {
    /// A virtual adapter is present.
    pub adapter_ready: bool,
    /// The vault holds a credential for the account.
    pub credential_found: bool,
    /// The client binary is where it is expected.
    pub binary_present: bool,
    /// The endpoint's configuration file exists.
    pub config_present: bool,
}

/// A session that counts as busy: a new connection request is refused.
pub open spec fn engaged(m: SessionModel) -> bool {
    m.status == SessionStatus::Starting || m.status == SessionStatus::AwaitingAuth || m.status
        == SessionStatus::Connected
}

/// The states that a session can be in: it owns a process exactly while it
/// awaits authentication or is connected, and has answered no more prompts
/// than it may.
pub open spec fn well_formed(m: SessionModel) -> bool {
    &&& m.live <==> (m.status == SessionStatus::AwaitingAuth || m.status
        == SessionStatus::Connected)
    &&& m.attempts <= MAX_AUTH_ATTEMPTS
}

/// The state of a session that was never used.
pub open spec fn idle() -> SessionModel {
    SessionModel { status: SessionStatus::Idle, endpoint: None, live: false, attempts: 0 }
}

/// The state of a session whose attempt has ended in failure: no process, no
/// endpoint on record.
pub open spec fn failed(m: SessionModel) -> SessionModel {
    SessionModel { status: SessionStatus::Failed, endpoint: None, live: false, attempts: m.attempts }
}

/// The first reason, if any, for which a connection request is refused. A
/// busy session refuses outright, whatever else holds.
pub open spec fn refusal(m: SessionModel, checks: Preflight) -> Option<SessionError> {
    if engaged(m) {
        Some(SessionError::AlreadyConnected)
    } else if !checks.adapter_ready {
        Some(SessionError::AdapterUnavailable)
    } else if !checks.credential_found {
        Some(SessionError::CredentialLookupFailed)
    } else if !checks.binary_present {
        Some(SessionError::BinaryNotFound)
    } else if !checks.config_present {
        Some(SessionError::ConfigNotFound)
    } else {
        None
    }
}

/// The state after an admitted connection request for `endpoint`.
pub open spec fn started(endpoint: Seq<char>) -> SessionModel {
    SessionModel {
        status: SessionStatus::Starting,
        endpoint: Some(endpoint),
        live: false,
        attempts: 0,
    }
}

/// The state after the client process was spawned: a starting session owns it
/// and awaits authentication; any other state stays.
pub open spec fn after_spawn(m: SessionModel) -> SessionModel {
    if m.status == SessionStatus::Starting {
        SessionModel { status: SessionStatus::AwaitingAuth, live: true, ..m }
    } else {
        m
    }
}

/// The state after the client process could not be spawned: a starting
/// session has failed; any other state stays.
pub open spec fn after_spawn_failure(m: SessionModel) -> SessionModel {
    if m.status == SessionStatus::Starting {
        failed(m)
    } else {
        m
    }
}

/// Whether a prompt is still answered in state `m`.
pub open spec fn may_resend(m: SessionModel) -> bool {
    m.status == SessionStatus::AwaitingAuth && m.attempts < MAX_AUTH_ATTEMPTS
}

/// The action that answers event `e` in state `m`.
pub open spec fn reaction(m: SessionModel, e: AuthEvent) -> Action {
    if m.status != SessionStatus::AwaitingAuth {
        Action::Nothing
    } else {
        match e {
            AuthEvent::UsernamePrompt => if may_resend(m) {
                Action::SendUsername
            } else {
                Action::Nothing
            },
            AuthEvent::PasswordPrompt => if may_resend(m) {
                Action::PauseThenSendPassword
            } else {
                Action::Nothing
            },
            AuthEvent::ConnectedSignal => Action::Succeed,
            AuthEvent::AuthFailedSignal => Action::Abort(SessionError::AuthenticationFailed),
            AuthEvent::Unclassified => Action::Nothing,
        }
    }
}

/// The state that follows `m` on event `e`.
pub open spec fn after_event(m: SessionModel, e: AuthEvent) -> SessionModel {
    if m.status != SessionStatus::AwaitingAuth {
        m
    } else {
        match e {
            AuthEvent::UsernamePrompt | AuthEvent::PasswordPrompt => if may_resend(m) {
                SessionModel { attempts: m.attempts + 1, ..m }
            } else {
                m
            },
            AuthEvent::ConnectedSignal => SessionModel { status: SessionStatus::Connected, ..m },
            AuthEvent::AuthFailedSignal => failed(m),
            AuthEvent::Unclassified => m,
        }
    }
}

/// The action due when the clock shows `elapsed_ms` since the attempt began.
pub open spec fn clock_reaction(m: SessionModel, elapsed_ms: u64) -> Action {
    if m.status != SessionStatus::AwaitingAuth {
        Action::Nothing
    } else if elapsed_ms >= DEADLINE_MS {
        Action::Abort(SessionError::ConnectionTimeout)
    } else {
        Action::Wait
    }
}

/// The state that follows `m` when the clock shows `elapsed_ms`.
pub open spec fn after_clock(m: SessionModel, elapsed_ms: u64) -> SessionModel {
    if m.status == SessionStatus::AwaitingAuth && elapsed_ms >= DEADLINE_MS {
        failed(m)
    } else {
        m
    }
}

/// The state after the client's input stream refused a credential: an attempt
/// that awaits authentication is over.
pub open spec fn after_send_failure(m: SessionModel) -> SessionModel {
    if m.status == SessionStatus::AwaitingAuth {
        failed(m)
    } else {
        m
    }
}

/// The state after a disconnect request: a connected session gives up its
/// process and its record; any other state stays.
pub open spec fn after_disconnect(m: SessionModel) -> SessionModel {
    if m.status == SessionStatus::Connected {
        SessionModel { status: SessionStatus::Disconnected, endpoint: None, live: false, ..m }
    } else {
        m
    }
}

/// What the handshake turns on: the part of a session that its rules read.
#[derive(Clone, Copy)]
struct Gauge {
    status: SessionStatus,
    live: bool,
    attempts: u32,
}

/// One tunnel attempt and, once it succeeded, the tunnel's lifetime.
///
/// A session is well formed at all times: it owns a client process exactly
/// while it awaits authentication or is connected, and it has answered no
/// more prompts than [`MAX_AUTH_ATTEMPTS`].
pub struct Session {
    gauge: Gauge,
    endpoint: Option<String>,
}

impl View for Session {
    type V = SessionModel;

    closed spec fn view(&self) -> SessionModel {
        SessionModel {
            status: self.gauge.status,
            endpoint: match self.endpoint {
                Some(name) => Some(name@),
                None => None,
            },
            live: self.gauge.live,
            attempts: self.gauge.attempts as nat,
        }
    }
}

impl Session {
    #[verifier::type_invariant]
    closed spec fn sound(&self) -> bool {
        well_formed(self@)
    }

    /// A session that was never used.
    pub fn new() -> (s: Session)
        ensures
            s@ == idle(),
    {
        Session {
            gauge: Gauge { status: SessionStatus::Idle, live: false, attempts: 0 },
            endpoint: None,
        }
    }

    /// Where the session stands.
    pub fn status(&self) -> (r: SessionStatus)
        ensures
            r == self@.status,
            well_formed(self@),
    {
        proof {
            use_type_invariant(self);
        }
        self.gauge.status
    }

    /// The endpoint on record, if any.
    pub fn endpoint(&self) -> (r: Option<String>)
        ensures
            r is Some <==> self@.endpoint is Some,
            r is Some ==> r->0@ == self@.endpoint->0,
    {
        match &self.endpoint {
            Some(name) => Some(name.clone()),
            None => None,
        }
    }

    /// How many prompts were answered by sending a credential again.
    pub fn auth_attempts(&self) -> (r: u32)
        ensures
            r == self@.attempts,
            r <= MAX_AUTH_ATTEMPTS,
    {
        proof {
            use_type_invariant(self);
        }
        self.gauge.attempts
    }

    /// Whether the session owns a client process.
    pub fn is_active(&self) -> (r: bool)
        ensures
            r == self@.live,
            r == (self@.status == SessionStatus::AwaitingAuth || self@.status
                == SessionStatus::Connected),
    {
        proof {
            use_type_invariant(self);
        }
        self.gauge.live
    }

    /// Whether a connection request would be refused as `AlreadyConnected`.
    pub fn is_engaged(&self) -> (r: bool)
        ensures
            r == engaged(self@),
    {
        self.gauge.status == SessionStatus::Starting || self.gauge.status
            == SessionStatus::AwaitingAuth || self.gauge.status == SessionStatus::Connected
    }

    /// A connection request for `endpoint`. It is admitted exactly when the
    /// session is not busy and every check has passed; the caller then spawns
    /// the client and reports how that went. A refused request changes
    /// nothing, so a busy session keeps its process and no second one is
    /// spawned.
    pub fn begin_connect(&mut self, endpoint: &str, checks: Preflight) -> (r: Result<
        (),
        SessionError,
    >)
        ensures
            match refusal(old(self)@, checks) {
                Some(e) => r == Err::<(), SessionError>(e) && final(self)@ == old(self)@,
                None => r is Ok && final(self)@ == started(endpoint@),
            },
            well_formed(final(self)@),
    {
        proof {
            use_type_invariant(&*self);
        }
        if self.is_engaged() {
            return Err(SessionError::AlreadyConnected);
        }
        if !checks.adapter_ready {
            return Err(SessionError::AdapterUnavailable);
        }
        if !checks.credential_found {
            return Err(SessionError::CredentialLookupFailed);
        }
        if !checks.binary_present {
            return Err(SessionError::BinaryNotFound);
        }
        if !checks.config_present {
            return Err(SessionError::ConfigNotFound);
        }
        self.gauge = Gauge { status: SessionStatus::Starting, live: false, attempts: 0 };
        self.endpoint = Some(endpoint.to_owned());
        Ok(())
    }

    /// The client process was spawned. A starting session takes ownership of
    /// it, awaits authentication and has the credentials sent; in any other
    /// state the report is ignored.
    pub fn on_spawned(&mut self) -> (action: Action)
        ensures
            final(self)@ == after_spawn(old(self)@),
            action == if old(self)@.status == SessionStatus::Starting {
                Action::SendCredentials
            } else {
                Action::Nothing
            },
            well_formed(final(self)@),
    {
        proof {
            use_type_invariant(&*self);
        }
        if self.gauge.status == SessionStatus::Starting {
            self.gauge = Gauge {
                status: SessionStatus::AwaitingAuth,
                live: true,
                attempts: self.gauge.attempts,
            };
            Action::SendCredentials
        } else {
            Action::Nothing
        }
    }

    /// The client process could not be spawned. A starting session fails with
    /// `SpawnFailed`; in any other state the report is ignored.
    pub fn on_spawn_failed(&mut self) -> (action: Action)
        ensures
            final(self)@ == after_spawn_failure(old(self)@),
            action == if old(self)@.status == SessionStatus::Starting {
                Action::Report(SessionError::SpawnFailed)
            } else {
                Action::Nothing
            },
            well_formed(final(self)@),
    {
        proof {
            use_type_invariant(&*self);
        }
        if self.gauge.status == SessionStatus::Starting {
            self.fail();
            Action::Report(SessionError::SpawnFailed)
        } else {
            Action::Nothing
        }
    }

    /// One classified line of client output.
    pub fn on_event(&mut self, event: AuthEvent) -> (action: Action)
        ensures
            action == reaction(old(self)@, event),
            final(self)@ == after_event(old(self)@, event),
            well_formed(final(self)@),
    {
        proof {
            use_type_invariant(&*self);
        }
        if self.gauge.status != SessionStatus::AwaitingAuth {
            return Action::Nothing;
        }
        match event {
            AuthEvent::UsernamePrompt => {
                if self.gauge.attempts < MAX_AUTH_ATTEMPTS {
                    self.gauge = Gauge { attempts: self.gauge.attempts + 1, ..self.gauge };
                    Action::SendUsername
                } else {
                    Action::Nothing
                }
            },
            AuthEvent::PasswordPrompt => {
                if self.gauge.attempts < MAX_AUTH_ATTEMPTS {
                    self.gauge = Gauge { attempts: self.gauge.attempts + 1, ..self.gauge };
                    Action::PauseThenSendPassword
                } else {
                    Action::Nothing
                }
            },
            AuthEvent::ConnectedSignal => {
                self.gauge = Gauge { status: SessionStatus::Connected, ..self.gauge };
                Action::Succeed
            },
            AuthEvent::AuthFailedSignal => {
                self.fail();
                Action::Abort(SessionError::AuthenticationFailed)
            },
            AuthEvent::Unclassified => Action::Nothing,
        }
    }

    /// The control loop looks at the clock, `elapsed_ms` after the attempt
    /// began. While the session awaits authentication, it is told to wait for
    /// the next event if the deadline has not come, and fails with
    /// `ConnectionTimeout` if it has.
    pub fn on_clock(&mut self, elapsed_ms: u64) -> (action: Action)
        ensures
            action == clock_reaction(old(self)@, elapsed_ms),
            final(self)@ == after_clock(old(self)@, elapsed_ms),
            well_formed(final(self)@),
    {
        proof {
            use_type_invariant(&*self);
        }
        if self.gauge.status != SessionStatus::AwaitingAuth {
            Action::Nothing
        } else if elapsed_ms >= DEADLINE_MS {
            self.fail();
            Action::Abort(SessionError::ConnectionTimeout)
        } else {
            Action::Wait
        }
    }

    /// A credential could not be written to the client. The client never
    /// got what it needs to start the tunnel, so an attempt that awaits
    /// authentication ends as `SpawnFailed` and its process is killed; in any
    /// other state the report is ignored.
    pub fn on_send_failed(&mut self) -> (action: Action)
        ensures
            final(self)@ == after_send_failure(old(self)@),
            action == if old(self)@.status == SessionStatus::AwaitingAuth {
                Action::Abort(SessionError::SpawnFailed)
            } else {
                Action::Nothing
            },
            well_formed(final(self)@),
    {
        proof {
            use_type_invariant(&*self);
        }
        if self.gauge.status == SessionStatus::AwaitingAuth {
            self.fail();
            Action::Abort(SessionError::SpawnFailed)
        } else {
            Action::Nothing
        }
    }

    /// A disconnect request. A connected session hands its process over to be
    /// killed and clears its record; otherwise there is nothing to do.
    pub fn disconnect(&mut self) -> (action: Action)
        ensures
            final(self)@ == after_disconnect(old(self)@),
            action == if old(self)@.status == SessionStatus::Connected {
                Action::Kill
            } else {
                Action::Nothing
            },
            well_formed(final(self)@),
    {
        proof {
            use_type_invariant(&*self);
        }
        if self.gauge.status == SessionStatus::Connected {
            self.gauge = Gauge {
                status: SessionStatus::Disconnected,
                live: false,
                attempts: self.gauge.attempts,
            };
            self.endpoint = None;
            Action::Kill
        } else {
            Action::Nothing
        }
    }

    fn fail(&mut self)
        ensures
            final(self)@ == failed(old(self)@),
    {
        proof {
            use_type_invariant(&*self);
        }
        self.gauge = Gauge {
            status: SessionStatus::Failed,
            live: false,
            attempts: self.gauge.attempts,
        };
        self.endpoint = None;
    }
}

/// The result of a disconnect whose kill was attempted: an error exactly when
/// the process would not die.
pub fn termination_outcome(killed: bool) -> (r: Result<(), SessionError>)
    ensures
        killed ==> r is Ok,
        !killed ==> r == Err::<(), SessionError>(SessionError::TerminationFailed),
{
    if killed {
        Ok(())
    } else {
        Err(SessionError::TerminationFailed)
    }
}

} // verus!
