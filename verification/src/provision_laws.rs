//! What holds of the provisioner over every run of reports.

use vstd::prelude::*;
use crate::provision::{next, pending, Phase, ProvisionError, Report, Step};

verus! {

/// The phase reached from `p` after the reports of `reports`, in order.
pub open spec fn run(p: Phase, reports: Seq<Report>) -> Phase
    decreases reports.len(),
{
    if reports.len() == 0 {
        p
    } else {
        run(next(p, reports[0]), reports.drop_first())
    }
}

/// How far a phase is along the escalation.
pub open spec fn rank(p: Phase) -> nat {
    match p {
        Phase::Enumerating => 0,
        Phase::ProbingElevation => 1,
        Phase::Creating { retried: false } => 2,
        Phase::Verifying { retried: false } => 3,
        Phase::Installing => 4,
        Phase::Creating { retried: true } => 5,
        Phase::Verifying { retried: true } => 6,
        Phase::Ready => 7,
        Phase::Failed(_) => 7,
    }
}

/// Provisioning has ended.
pub open spec fn finished(p: Phase) -> bool {
    p == Phase::Ready || p is Failed
}

/// A finished provisioner stays as it is, whatever is reported to it.
pub proof fn lemma_finished_is_final(p: Phase, reports: Seq<Report>)
    requires
        finished(p),
    ensures
        run(p, reports) == p,
    decreases reports.len(),
{
    if reports.len() > 0 {
        lemma_finished_is_final(p, reports.drop_first());
    }
}

/// A report either changes nothing or moves the provisioner strictly
/// forward along the escalation. As no two phases share a rank but the final
/// ones, each step is ordered once at most: one listing, one probe of the
/// rights, one installation, and two creations, each with its verification.
pub proof fn lemma_never_goes_back(p: Phase, r: Report)
    ensures
        next(p, r) == p || rank(next(p, r)) > rank(p),
        rank(next(p, r)) <= 7,
{
}

/// When the first listing shows an adapter, provisioning has succeeded at
/// once: the step due then, and after any further reports, is `Succeed`, so
/// neither the probe of the rights nor a creation nor an installation is
/// ever ordered.
pub proof fn lemma_existing_adapter_is_enough(count: usize, later: Seq<Report>)
    requires
        count > 0,
    ensures
        next(Phase::Enumerating, Report::Adapters(count)) == Phase::Ready,
        pending(run(next(Phase::Enumerating, Report::Adapters(count)), later)) == Step::Succeed,
{
    lemma_finished_is_final(Phase::Ready, later);
}

/// The rights are looked up only after a listing has shown no adapter: the
/// probe is ordered by an empty first listing and by nothing else.
pub proof fn lemma_probe_only_without_adapter(p: Phase, r: Report)
    requires
        next(p, r) != p,
        pending(next(p, r)) == Step::ProbeElevation,
    ensures
        p == Phase::Enumerating,
        r == Report::Adapters(0),
{
}

/// When the first listing shows no adapter and the process is not elevated,
/// provisioning ends with `ElevationRequired`: the step due then, and after
/// any further reports, is to give up with that error, so neither a creation
/// nor an installation is ever ordered.
pub proof fn lemma_no_rights_no_creation(later: Seq<Report>)
    ensures
        pending(next(Phase::Enumerating, Report::Adapters(0))) == Step::ProbeElevation,
        next(next(Phase::Enumerating, Report::Adapters(0)), Report::Elevated(false))
            == Phase::Failed(ProvisionError::ElevationRequired),
        pending(
            run(
                next(next(Phase::Enumerating, Report::Adapters(0)), Report::Elevated(false)),
                later,
            ),
        ) == Step::GiveUp(ProvisionError::ElevationRequired),
{
    lemma_finished_is_final(Phase::Failed(ProvisionError::ElevationRequired), later);
}

/// A step that changes the system is due: a creation, its verification or
/// the driver's installation.
pub open spec fn mutating(p: Phase) -> bool {
    pending(p) == Step::Create || pending(p) == Step::Verify || pending(p) == Step::Install
}

/// Whatever is reported and in whatever order, nothing is created or
/// installed unless the process was reported elevated.
pub proof fn lemma_mutation_needs_rights(reports: Seq<Report>)
    requires
        mutating(run(Phase::Enumerating, reports)),
    ensures
        reports.contains(Report::Elevated(true)),
{
    lemma_mutation_was_licensed(Phase::Enumerating, reports);
}

/// Whatever is reported and in whatever order, the rights are not looked up
/// and nothing is created or installed unless a listing showed no adapter.
pub proof fn lemma_escalation_needs_empty_listing(reports: Seq<Report>)
    requires
        mutating(run(Phase::Enumerating, reports)) || pending(run(Phase::Enumerating, reports))
            == Step::ProbeElevation,
    ensures
        reports.contains(Report::Adapters(0)),
{
    lemma_escalation_was_caused(reports);
}

proof fn lemma_mutation_was_licensed(p: Phase, reports: Seq<Report>)
    requires
        p == Phase::Enumerating || p == Phase::ProbingElevation,
        mutating(run(p, reports)),
    ensures
        reports.contains(Report::Elevated(true)),
    decreases reports.len(),
{
    if reports.len() > 0 {
        let q = next(p, reports[0]);
        let rest = reports.drop_first();
        if q == Phase::Enumerating || q == Phase::ProbingElevation {
            lemma_mutation_was_licensed(q, rest);
            let i = choose|i: int| 0 <= i < rest.len() && rest[i] == Report::Elevated(true);
            assert(reports[i + 1] == Report::Elevated(true));
        } else if finished(q) {
            lemma_finished_is_final(q, rest);
        } else {
            assert(reports[0] == Report::Elevated(true));
        }
    }
}

proof fn lemma_escalation_was_caused(reports: Seq<Report>)
    requires
        mutating(run(Phase::Enumerating, reports)) || pending(run(Phase::Enumerating, reports))
            == Step::ProbeElevation,
    ensures
        reports.contains(Report::Adapters(0)),
    decreases reports.len(),
{
    if reports.len() > 0 {
        let q = next(Phase::Enumerating, reports[0]);
        let rest = reports.drop_first();
        if q == Phase::Enumerating {
            lemma_escalation_was_caused(rest);
            let i = choose|i: int| 0 <= i < rest.len() && rest[i] == Report::Adapters(0);
            assert(reports[i + 1] == Report::Adapters(0));
        } else if finished(q) {
            lemma_finished_is_final(q, rest);
        } else {
            assert(reports[0] == Report::Adapters(0));
        }
    }
}

/// The driver is installed only after a first creation has failed, and a
/// creation that fails after the installation ends provisioning with its own
/// error.
pub proof fn lemma_one_retry(p: Phase, r: Report)
    requires
        next(p, r) != p,
    ensures
        next(p, r) == Phase::Installing ==> (p == Phase::Creating { retried: false } || p
            == Phase::Verifying { retried: false }),
        p == (Phase::Creating { retried: true }) && r == Report::CreateRejected ==> next(p, r)
            == Phase::Failed(ProvisionError::CreationFailed),
        p == (Phase::Creating { retried: true }) && r == Report::ToolFailed ==> next(p, r)
            == Phase::Failed(ProvisionError::ToolExecutionFailed),
        p == (Phase::Verifying { retried: true }) && r == Report::Adapters(0) ==> next(p, r)
            == Phase::Failed(ProvisionError::VerificationFailed),
{
}

} // verus!
