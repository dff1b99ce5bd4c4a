//! Installing the adapter's driver and recognising it in the driver registry.
//!
//! The installer is started detached and never waited for: it may hang or
//! ask questions. Instead the registry is polled for the driver's component
//! identifier, and the installer is stopped as soon as the driver shows up or
//! the time allowed has passed.

use vstd::prelude::*;
use vstd::string::*;
use crate::provision::{ProvisionError, Report};
use crate::text::{equals_ignoring_case, same_ignoring_case, same_text};

verus! {

/// The time between two looks at the registry, in milliseconds.
pub const INSTALL_POLL_MS: u64 = 2_000;

/// The time allowed for the driver to show up, in milliseconds.
pub const INSTALL_CEILING_MS: u64 = 60_000;

/// How many class subkeys the registry scan covers: those numbered from 0.
pub const SUBKEY_COUNT: u16 = 1000;

/// What to make of an installation whose time has run out.
#[derive(Clone, Copy, Debug, PartialEq, Eq, Structural)]
pub enum InstallPolicy {
    /// Count it as done: the driver may be there although the installer did
    /// not end in time, and the creation that follows will tell.
    Optimistic,
    /// Look at the registry one last time and fail with `InstallTimeout` if
    /// the driver is still missing.
    Strict,
}

/// What the hosting program does after a look at the clock and the registry.
#[derive(Clone, Copy, Debug, PartialEq, Eq, Structural)]
pub enum InstallStep {
    /// Pause for [`INSTALL_POLL_MS`], then look again.
    Pause,
    /// The driver is there: stop the installer, which has done its work.
    Stop,
    /// Time is up: kill the installer and every process of its name; the
    /// installation counts as done.
    ForceStop,
    /// Time is up and the driver is missing: kill the installer and every
    /// process of its name; the installation has failed.
    ForceStopAndFail,
}

/// Whether the registry is looked at when the clock shows `elapsed_ms`:
/// always before the ceiling, and after it only under the strict policy.
pub open spec fn probe_due(policy: InstallPolicy, elapsed_ms: u64) -> bool {
    elapsed_ms < INSTALL_CEILING_MS || policy == InstallPolicy::Strict
}

/// The step that follows a look at the clock and, where one was due, at the
/// registry. After the ceiling the optimistic policy does not care what the
/// registry holds.
pub open spec fn install_decision(policy: InstallPolicy, elapsed_ms: u64, detected: bool)
    -> InstallStep {
    if elapsed_ms < INSTALL_CEILING_MS {
        if detected {
            InstallStep::Stop
        } else {
            InstallStep::Pause
        }
    } else if policy == InstallPolicy::Optimistic || detected {
        InstallStep::ForceStop
    } else {
        InstallStep::ForceStopAndFail
    }
}

/// What an installation step means to the provisioner: nothing yet while it
/// pauses, done when the installer was stopped, failed on a strict timeout.
pub open spec fn install_report(step: InstallStep) -> Option<Report> {
    match step {
        InstallStep::Pause => None,
        InstallStep::Stop => Some(Report::Installed),
        InstallStep::ForceStop => Some(Report::Installed),
        InstallStep::ForceStopAndFail => Some(
            Report::InstallFailed(ProvisionError::InstallTimeout),
        ),
    }
}

/// Whether to look at the registry now.
pub fn probe_wanted(policy: InstallPolicy, elapsed_ms: u64) -> (r: bool)
    ensures
        r == probe_due(policy, elapsed_ms),
{
    elapsed_ms < INSTALL_CEILING_MS || policy == InstallPolicy::Strict
}

/// Decides the next installation step. `detected` says whether the registry
/// held the driver at the last look; pass `false` where no look was due.
pub fn install_poll(policy: InstallPolicy, elapsed_ms: u64, detected: bool) -> (step: InstallStep)
    ensures
        step == install_decision(policy, elapsed_ms, detected),
{
    if elapsed_ms < INSTALL_CEILING_MS {
        if detected {
            InstallStep::Stop
        } else {
            InstallStep::Pause
        }
    } else if policy == InstallPolicy::Optimistic || detected {
        InstallStep::ForceStop
    } else {
        InstallStep::ForceStopAndFail
    }
}

impl InstallStep {
    /// The report that this step makes to the provisioner, if it ends the
    /// installation.
    pub fn report(self) -> (r: Option<Report>)
        ensures
            r == install_report(self),
    {
        match self {
            InstallStep::Pause => None,
            InstallStep::Stop => Some(Report::Installed),
            InstallStep::ForceStop => Some(Report::Installed),
            InstallStep::ForceStopAndFail => Some(
                Report::InstallFailed(ProvisionError::InstallTimeout),
            ),
        }
    }
}

/// Under the optimistic policy an installation never fails for want of
/// time, and under either policy it ends at the first look at the clock from
/// the ceiling on; before the ceiling it ends exactly when the driver is
/// seen.
pub proof fn lemma_installation_ends(policy: InstallPolicy, elapsed_ms: u64, detected: bool)
    ensures
        policy == InstallPolicy::Optimistic ==> install_decision(policy, elapsed_ms, detected)
            != InstallStep::ForceStopAndFail,
        elapsed_ms >= INSTALL_CEILING_MS ==> install_report(
            install_decision(policy, elapsed_ms, detected),
        ) is Some,
        elapsed_ms < INSTALL_CEILING_MS ==> (install_report(
            install_decision(policy, elapsed_ms, detected),
        ) is Some <==> detected),
        install_decision(policy, elapsed_ms, detected) == InstallStep::ForceStopAndFail ==> policy
            == InstallPolicy::Strict && !detected && elapsed_ms >= INSTALL_CEILING_MS,
{
}

/// The component identifier under which the driver is registered.
pub open spec fn driver_component() -> Seq<char> {
    "tap0901"@
}

/// Whether a registered component identifier is the driver's, the case of
/// letters ignored.
pub open spec fn is_driver(id: Seq<char>) -> bool {
    same_ignoring_case(id, driver_component())
}

/// Whether `id`, a `ComponentId` value read from the registry, names the driver.
pub fn is_driver_component(id: &str) -> (r: bool)
    ensures
        r == is_driver(id@),
{
    equals_ignoring_case(id, "tap0901")
}

/// Whether the driver is installed, given the component identifiers found
/// under the network adapter class: true exactly when one of them is the
/// driver's.
pub fn driver_listed(ids: &Vec<String>) -> (r: bool)
    ensures
        r == exists|k: int| 0 <= k < ids@.len() && is_driver(#[trigger] ids@[k]@),
{
    let n: usize = ids.len();
    let mut i: usize = 0;
    while i < n
        invariant
            n == ids@.len(),
            i <= n,
            forall|k: int| 0 <= k < i ==> !is_driver(#[trigger] ids@[k]@),
        decreases n - i,
    {
        if is_driver_component(ids[i].as_str()) {
            return true;
        }
        i = i + 1;
    }
    false
}

/// The decimal digit `d` as a character.
pub open spec fn digit(d: int) -> char {
    if d == 0 {
        '0'
    } else if d == 1 {
        '1'
    } else if d == 2 {
        '2'
    } else if d == 3 {
        '3'
    } else if d == 4 {
        '4'
    } else if d == 5 {
        '5'
    } else if d == 6 {
        '6'
    } else if d == 7 {
        '7'
    } else if d == 8 {
        '8'
    } else {
        '9'
    }
}

/// The name of the class subkey numbered `index`: its four decimal digits,
/// with leading zeros.
pub open spec fn subkey_digits(index: int) -> Seq<char> {
    seq![
        digit(index / 1000),
        digit((index / 100) % 10),
        digit((index / 10) % 10),
        digit(index % 10),
    ]
}

fn digit_text(d: u16) -> (r: &'static str)
    requires
        d < 10,
    ensures
        r@ == seq![digit(d as int)],
{
    proof {
        reveal_strlit("0");
        reveal_strlit("1");
        reveal_strlit("2");
        reveal_strlit("3");
        reveal_strlit("4");
        reveal_strlit("5");
        reveal_strlit("6");
        reveal_strlit("7");
        reveal_strlit("8");
        reveal_strlit("9");
    }
    let r = if d == 0 {
        "0"
    } else if d == 1 {
        "1"
    } else if d == 2 {
        "2"
    } else if d == 3 {
        "3"
    } else if d == 4 {
        "4"
    } else if d == 5 {
        "5"
    } else if d == 6 {
        "6"
    } else if d == 7 {
        "7"
    } else if d == 8 {
        "8"
    } else {
        "9"
    };
    proof {
        assert(r@ =~= seq![digit(d as int)]);
    }
    r
}

/// The name of the class subkey numbered `index`, for the subkeys that the
/// scan covers; `None` for any other number.
pub fn subkey_name(index: u16) -> (r: Option<String>)
    ensures
        index < SUBKEY_COUNT ==> r is Some && r->0@ == subkey_digits(index as int),
        index >= SUBKEY_COUNT ==> r is None,
{
    if index >= SUBKEY_COUNT {
        return None;
    }
    let mut name = String::new();
    name.append(digit_text(index / 1000));
    name.append(digit_text((index / 100) % 10));
    name.append(digit_text((index / 10) % 10));
    name.append(digit_text(index % 10));
    proof {
        assert(name@ =~= subkey_digits(index as int));
    }
    Some(name)
}

/// The processor architectures for which a client and an installer are shipped.
#[derive(Clone, Copy, Debug, PartialEq, Eq, Structural)]
pub enum Architecture {
    Amd64,
    Arm64,
}

/// The architecture that the platform calls `name`, if it is supported.
pub open spec fn architecture_named(name: Seq<char>) -> Option<Architecture> {
    if name == "x86_64"@ {
        Some(Architecture::Amd64)
    } else if name == "aarch64"@ {
        Some(Architecture::Arm64)
    } else {
        None
    }
}

impl Architecture {
    /// Reads the platform's name of an architecture.
    pub fn parse(name: &str) -> (r: Option<Architecture>)
        ensures
            r == architecture_named(name@),
    {
        if same_text(name, "x86_64") {
            Some(Architecture::Amd64)
        } else if same_text(name, "aarch64") {
            Some(Architecture::Arm64)
        } else {
            None
        }
    }

    /// The directory, below the installation's `bin`, that holds the client
    /// and the control utility for this architecture.
    pub fn tool_directory(self) -> (r: &'static str)
        ensures
            r@ == match self {
                Architecture::Amd64 => "openvpn_amd64"@,
                Architecture::Arm64 => "openvpn_arm64"@,
            },
    {
        match self {
            Architecture::Amd64 => "openvpn_amd64",
            Architecture::Arm64 => "openvpn_arm64",
        }
    }

    /// The file name of the installer package for this architecture.
    pub fn installer_name(self) -> (r: &'static str)
        ensures
            r@ == match self {
                Architecture::Amd64 => "OpenVPN-2.6.12-I001-amd64.msi"@,
                Architecture::Arm64 => "OpenVPN-2.6.12-I001-arm64.msi"@,
            },
    {
        match self {
            Architecture::Amd64 => "OpenVPN-2.6.12-I001-amd64.msi",
            Architecture::Arm64 => "OpenVPN-2.6.12-I001-arm64.msi",
        }
    }
}

} // verus!
