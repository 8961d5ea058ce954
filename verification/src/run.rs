//! The whole maintenance run over a host model: environment guard, stamp
//! short-circuit, per-deployment remediation, and the decision whether the
//! stamp may be written. The model mirrors, value for value, the decisions
//! the unverified shell makes against the real filesystem, so the laws
//! proved here (no mutation on a failed guard, idempotence, the stamp
//! invariant) are laws of the command itself.

use vstd::prelude::*;

use crate::guard::{check, guard_ok, GuardError, HostContext};
use crate::remedy::{dep_after, lemma_dep_after_idempotent, remediate_deployment, DeploymentFs,
    DepFsView};

verus! {

/// The remediation-relevant state of a whole host: whether the stamp of
/// this fix generation exists, and the state of every deployment.
pub struct HostFs {
    pub stamp_present: bool,
    pub deployments: Vec<DeploymentFs>,
}

/// Mathematical view of `HostFs`.
#[verifier::ext_equal]
pub struct HostFsView {
    pub stamp_present: bool,
    pub deployments: Seq<DepFsView>,
}

impl View for HostFs {
    type V = HostFsView;

    open spec fn view(&self) -> HostFsView {
        HostFsView {
            stamp_present: self.stamp_present,
            deployments: self.deployments@.map_values(|d: DeploymentFs| d@),
        }
    }
}

/// How one maintenance run ended.
#[derive(PartialEq, Eq, Debug)]
pub enum RunStatus {
    /// Precondition failure: the host is not a managed deployment host.
    NotManagedHost,
    /// Precondition failure: the caller is not the superuser.
    InsufficientPrivilege,
    /// The stamp already exists; nothing was enumerated or touched.
    AlreadyFixed,
    /// Every deployment was remediated and the stamp is now set.
    Fixed,
    /// The named deployments (by index) failed; the rest were remediated,
    /// and the stamp was not set, so a later run retries everything.
    PartialFailure(Vec<usize>),
}

/// Every outcome in `oks` is a success.
pub open spec fn all_ok(oks: Seq<bool>) -> bool {
    forall|i: int| 0 <= i < oks.len() ==> oks[i]
}

/// The indices of the failed outcomes in `oks`, in ascending order.
pub open spec fn failing_indices(oks: Seq<bool>) -> Seq<usize>
    decreases oks.len(),
{
    if oks.len() == 0 {
        Seq::empty()
    } else if oks.last() {
        failing_indices(oks.drop_last())
    } else {
        failing_indices(oks.drop_last()).push((oks.len() - 1) as usize)
    }
}

/// The per-deployment success outcomes of one remediation pass: a
/// deployment succeeds exactly when it is writable.
pub open spec fn writability(deps: Seq<DepFsView>) -> Seq<bool> {
    deps.map_values(|d: DepFsView| d.writable)
}

/// The host state after one maintenance run: unchanged when the guard
/// fails or the stamp already exists; otherwise every deployment is
/// remediated and the stamp is set exactly when all of them succeeded.
pub open spec fn host_after(ctx: HostContext, h: HostFsView) -> HostFsView {
    if !guard_ok(ctx) || h.stamp_present {
        h
    } else {
        HostFsView {
            stamp_present: all_ok(writability(h.deployments)),
            deployments: h.deployments.map_values(|d: DepFsView| dep_after(d)),
        }
    }
}

/// There is a failed outcome exactly when not all outcomes succeeded.
proof fn lemma_failing_indices_empty(oks: Seq<bool>)
    ensures
        failing_indices(oks).len() == 0 <==> all_ok(oks),
    decreases oks.len(),
{
    if oks.len() > 0 {
        lemma_failing_indices_empty(oks.drop_last());
        if all_ok(oks) {
            assert(all_ok(oks.drop_last()));
        }
        if oks.last() && all_ok(oks.drop_last()) {
            assert forall|i: int| 0 <= i < oks.len() implies oks[i] by {
                if i < oks.len() - 1 {
                    assert(oks.drop_last()[i]);
                }
            }
        }
    }
}

/// Aggregate the per-deployment outcomes of a remediation pass: whether
/// every deployment succeeded, and the indices of those that did not, in
/// ascending order. The first component decides whether the stamp may be
/// written.
pub fn summarize(results: &Vec<bool>) -> (r: (bool, Vec<usize>))
    ensures
        r.0 == all_ok(results@),
        r.1@ == failing_indices(results@),
{
    let mut failed: Vec<usize> = Vec::new();
    let mut k: usize = 0;
    while k < results.len()
        invariant
            k <= results@.len(),
            failed@ == failing_indices(results@.take(k as int)),
        decreases results@.len() - k,
    {
        proof {
            assert(results@.take(k + 1).drop_last() =~= results@.take(k as int));
            assert(results@.take(k + 1).last() == results@[k as int]);
        }
        if !results[k] {
            failed.push(k);
        }
        k += 1;
    }
    proof {
        assert(results@.take(results@.len() as int) =~= results@);
        lemma_failing_indices_empty(results@);
    }
    let ok = failed.len() == 0;
    (ok, failed)
}

/// One whole maintenance run against the host model.
///
/// The guard is consulted first and a failed precondition changes nothing.
/// An existing stamp turns the run into a fast no-op. Otherwise every
/// deployment is remediated, an aggregate failure withholds the stamp and
/// names the failed deployments, and full success sets the stamp.
pub fn run(ctx: &HostContext, host: HostFs) -> (r: (HostFs, RunStatus))
    ensures
        r.0@ == host_after(*ctx, host@),
        r.1 is NotManagedHost <==> !ctx.marker_present,
        r.1 is InsufficientPrivilege <==> ctx.marker_present && ctx.effective_uid != 0,
        r.1 is AlreadyFixed <==> guard_ok(*ctx) && host@.stamp_present,
        r.1 is Fixed <==> guard_ok(*ctx) && !host@.stamp_present && all_ok(
            writability(host@.deployments),
        ),
        r.1 is PartialFailure <==> guard_ok(*ctx) && !host@.stamp_present && !all_ok(
            writability(host@.deployments),
        ),
        r.1 matches RunStatus::PartialFailure(f) ==> f@ == failing_indices(
            writability(host@.deployments),
        ),
{
    match check(ctx) {
        Err(GuardError::NotManagedHost) => {
            return (host, RunStatus::NotManagedHost);
        },
        Err(GuardError::InsufficientPrivilege) => {
            return (host, RunStatus::InsufficientPrivilege);
        },
        Ok(()) => {},
    }
    if host.stamp_present {
        return (host, RunStatus::AlreadyFixed);
    }
    let ghost dv: Seq<DepFsView> = host@.deployments;
    let mut fixed: Vec<DeploymentFs> = Vec::new();
    let mut oks: Vec<bool> = Vec::new();
    let mut k: usize = 0;
    while k < host.deployments.len()
        invariant
            dv == host@.deployments,
            dv.len() == host.deployments@.len(),
            k <= dv.len(),
            fixed@.len() == k,
            oks@.len() == k,
            forall|i: int| 0 <= i < k ==> (#[trigger] fixed@[i])@ == dep_after(dv[i]),
            forall|i: int| 0 <= i < k ==> #[trigger] oks@[i] == dv[i].writable,
        decreases dv.len() - k,
    {
        let (nd, ok) = remediate_deployment(&host.deployments[k]);
        fixed.push(nd);
        oks.push(ok);
        k += 1;
    }
    proof {
        assert(oks@ =~= writability(dv));
    }
    let (ok, failed) = summarize(&oks);
    let after = HostFs { stamp_present: ok, deployments: fixed };
    proof {
        assert(after@.deployments =~= dv.map_values(|d: DepFsView| dep_after(d)));
        assert(after@ =~~= host_after(*ctx, host@));
    }
    if ok {
        (after, RunStatus::Fixed)
    } else {
        (after, RunStatus::PartialFailure(failed))
    }
}

/// A failed precondition (unmanaged host or insufficient privilege) leaves
/// the host exactly as it was: no deployment is touched and no stamp is
/// created.
pub proof fn lemma_guard_failure_no_mutation(ctx: HostContext, h: HostFsView)
    requires
        !guard_ok(ctx),
    ensures
        host_after(ctx, h) == h,
{
}

/// An existing stamp turns the run into a no-op: nothing on the host
/// changes, whatever the on-disk modes are.
pub proof fn lemma_stamped_host_untouched(ctx: HostContext, h: HostFsView)
    requires
        h.stamp_present,
    ensures
        host_after(ctx, h) == h,
{
}

/// Stamp invariant: after a run, the stamp exists exactly when it already
/// existed or this run passed the guard and remediated every deployment
/// successfully. In particular, a pass that fails on any deployment never
/// creates the stamp.
pub proof fn lemma_stamp_iff_full_success(ctx: HostContext, h: HostFsView)
    ensures
        host_after(ctx, h).stamp_present <==> (h.stamp_present || (guard_ok(ctx) && all_ok(
            writability(h.deployments),
        ))),
        guard_ok(ctx) && !h.stamp_present && !all_ok(writability(h.deployments))
            ==> !host_after(ctx, h).stamp_present,
{
}

/// Running the command twice in succession yields the same host state as
/// running it once: the second run either short-circuits on the stamp or
/// re-applies a remediation that changes nothing.
pub proof fn lemma_run_idempotent(ctx: HostContext, h: HostFsView)
    ensures
        host_after(ctx, host_after(ctx, h)) == host_after(ctx, h),
{
    if guard_ok(ctx) && !h.stamp_present {
        let h1 = host_after(ctx, h);
        if !h1.stamp_present {
            assert(writability(h1.deployments) =~= writability(h.deployments)) by {
                assert forall|i: int| 0 <= i < h.deployments.len() implies dep_after(
                    h.deployments[i],
                ).writable == h.deployments[i].writable by {}
            }
            assert forall|i: int| 0 <= i < h1.deployments.len() implies #[trigger] dep_after(
                h1.deployments[i],
            ) == h1.deployments[i] by {
                lemma_dep_after_idempotent(h.deployments[i]);
            }
            assert(host_after(ctx, h1).deployments =~= h1.deployments);
            assert(host_after(ctx, h1) =~= h1);
        }
    }
}

} // verus!
