//! Making sure that a virtual network adapter exists.
//!
//! The provisioner escalates step by step: look for an adapter; only if none
//! is there, ask whether the process is elevated; only if it is, create one;
//! only if that fails, install the driver and try once more. It performs none
//! of these steps itself: [`pending`] names the step that is due, the hosting
//! program performs it and hands the [`Report`] to [`next`].

use vstd::prelude::*;

verus! {

/// Why no adapter could be provided.
#[derive(Clone, Copy, Debug, PartialEq, Eq, Structural)]
pub enum ProvisionError {
    /// No adapter exists and the process may not create one: the user has to
    /// restart the program with administrative rights.
    ElevationRequired,
    /// The control utility or the installer could not be run.
    ToolExecutionFailed,
    /// The control utility ran and reported that it created nothing.
    CreationFailed,
    /// The control utility reported success, yet no adapter is listed.
    VerificationFailed,
    /// The driver did not appear within the time allowed for its installation.
    InstallTimeout,
}

/// Where the provisioner stands.
#[derive(Clone, Copy, Debug, PartialEq, Eq, Structural)]
pub enum Phase {
    /// The adapters are being listed for the first time.
    Enumerating,
    /// No adapter exists; the process's rights are being looked up.
    ProbingElevation,
    /// An adapter is being created; `retried` tells the second try from the first.
    Creating { retried: bool },
    /// The adapters are being listed again after a creation that claimed success.
    Verifying { retried: bool },
    /// The driver is being installed after the first creation failed.
    Installing,
    /// An adapter exists.
    Ready,
    /// No adapter could be provided.
    Failed(ProvisionError),
}

/// What the hosting program found when it performed a step.
#[derive(Clone, Copy, Debug, PartialEq, Eq, Structural)]
pub enum Report {
    /// The control utility listed this many adapters.
    Adapters(usize),
    /// The control utility could not be run, or could not list.
    ToolFailed,
    /// Whether the process runs with administrative rights.
    Elevated(bool),
    /// The control utility reported that it created an adapter.
    Created,
    /// The control utility ran and reported failure.
    CreateRejected,
    /// The driver installation has ended and counts as done.
    Installed,
    /// The driver installation has ended in this error.
    InstallFailed(ProvisionError),
}

/// A step for the hosting program to perform.
#[derive(Clone, Copy, Debug, PartialEq, Eq, Structural)]
pub enum Step {
    /// List the adapters with the control utility; needs no special rights.
    Enumerate,
    /// Find out whether the process runs with administrative rights.
    ProbeElevation,
    /// Create an adapter with the control utility.
    Create,
    /// Pause for [`VERIFY_PAUSE_MS`], then list the adapters again.
    Verify,
    /// Install the driver.
    Install,
    /// Done: an adapter exists.
    Succeed,
    /// Done: report the error.
    GiveUp(ProvisionError),
}

/// The pause between a creation and the listing that verifies it, in
/// milliseconds.
pub const VERIFY_PAUSE_MS: u64 = 2_000;

/// The step that is due in phase `p`.
pub open spec fn pending(p: Phase) -> Step {
    match p {
        Phase::Enumerating => Step::Enumerate,
        Phase::ProbingElevation => Step::ProbeElevation,
        Phase::Creating { .. } => Step::Create,
        Phase::Verifying { .. } => Step::Verify,
        Phase::Installing => Step::Install,
        Phase::Ready => Step::Succeed,
        Phase::Failed(e) => Step::GiveUp(e),
    }
}

/// Where a failed creation leads: the first one to the driver's
/// installation, the second one to the end, with its own error.
pub open spec fn after_failed_creation(retried: bool, e: ProvisionError) -> Phase {
    if retried {
        Phase::Failed(e)
    } else {
        Phase::Installing
    }
}

/// The phase that follows `p` on report `r`. A report that does not answer
/// the step due in `p` changes nothing.
pub open spec fn next(p: Phase, r: Report) -> Phase {
    match (p, r) {
        (Phase::Enumerating, Report::Adapters(n)) => if n > 0 {
            Phase::Ready
        } else {
            Phase::ProbingElevation
        },
        (Phase::Enumerating, Report::ToolFailed) => Phase::Failed(
            ProvisionError::ToolExecutionFailed,
        ),
        (Phase::ProbingElevation, Report::Elevated(yes)) => if yes {
            Phase::Creating { retried: false }
        } else {
            Phase::Failed(ProvisionError::ElevationRequired)
        },
        (Phase::Creating { retried }, Report::Created) => Phase::Verifying { retried },
        (Phase::Creating { retried }, Report::CreateRejected) => after_failed_creation(
            retried,
            ProvisionError::CreationFailed,
        ),
        (Phase::Creating { retried }, Report::ToolFailed) => after_failed_creation(
            retried,
            ProvisionError::ToolExecutionFailed,
        ),
        (Phase::Verifying { retried }, Report::Adapters(n)) => if n > 0 {
            Phase::Ready
        } else {
            after_failed_creation(retried, ProvisionError::VerificationFailed)
        },
        (Phase::Verifying { retried }, Report::ToolFailed) => after_failed_creation(
            retried,
            ProvisionError::ToolExecutionFailed,
        ),
        (Phase::Installing, Report::Installed) => Phase::Creating { retried: true },
        (Phase::Installing, Report::InstallFailed(e)) => Phase::Failed(e),
        _ => p,
    }
}

impl Phase {
    /// The phase in which provisioning begins.
    pub fn start() -> (p: Phase)
        ensures
            p == Phase::Enumerating,
    {
        Phase::Enumerating
    }

    /// The step that is due.
    pub fn pending(self) -> (s: Step)
        ensures
            s == pending(self),
    {
        match self {
            Phase::Enumerating => Step::Enumerate,
            Phase::ProbingElevation => Step::ProbeElevation,
            Phase::Creating { .. } => Step::Create,
            Phase::Verifying { .. } => Step::Verify,
            Phase::Installing => Step::Install,
            Phase::Ready => Step::Succeed,
            Phase::Failed(e) => Step::GiveUp(e),
        }
    }

    /// The phase after the hosting program reported `r`.
    pub fn advance(self, r: Report) -> (p: Phase)
        ensures
            p == next(self, r),
    {
        match self {
            Phase::Enumerating => match r {
                Report::Adapters(n) => if n > 0 {
                    Phase::Ready
                } else {
                    Phase::ProbingElevation
                },
                Report::ToolFailed => Phase::Failed(ProvisionError::ToolExecutionFailed),
                _ => self,
            },
            Phase::ProbingElevation => match r {
                Report::Elevated(yes) => if yes {
                    Phase::Creating { retried: false }
                } else {
                    Phase::Failed(ProvisionError::ElevationRequired)
                },
                _ => self,
            },
            Phase::Creating { retried } => match r {
                Report::Created => Phase::Verifying { retried },
                Report::CreateRejected => failed_creation(retried, ProvisionError::CreationFailed),
                Report::ToolFailed => failed_creation(
                    retried,
                    ProvisionError::ToolExecutionFailed,
                ),
                _ => self,
            },
            Phase::Verifying { retried } => match r {
                Report::Adapters(n) => if n > 0 {
                    Phase::Ready
                } else {
                    failed_creation(retried, ProvisionError::VerificationFailed)
                },
                Report::ToolFailed => failed_creation(
                    retried,
                    ProvisionError::ToolExecutionFailed,
                ),
                _ => self,
            },
            Phase::Installing => match r {
                Report::Installed => Phase::Creating { retried: true },
                Report::InstallFailed(e) => Phase::Failed(e),
                _ => self,
            },
            Phase::Ready => self,
            Phase::Failed(_) => self,
        }
    }

    /// Whether provisioning has ended, and how: `None` while a step is due.
    pub fn outcome(self) -> (r: Option<Result<(), ProvisionError>>)
        ensures
            match self {
                Phase::Ready => r == Some(Ok::<(), ProvisionError>(())),
                Phase::Failed(e) => r == Some(Err::<(), ProvisionError>(e)),
                _ => r is None,
            },
    {
        match self {
            Phase::Ready => Some(Ok(())),
            Phase::Failed(e) => Some(Err(e)),
            _ => None,
        }
    }
}

fn failed_creation(retried: bool, e: ProvisionError) -> (p: Phase)
    ensures
        p == after_failed_creation(retried, e),
{
    if retried {
        Phase::Failed(e)
    } else {
        Phase::Installing
    }
}

} // verus!
