//! Environment guard: the maintenance command may only run on a managed
//! (deployment-based) host and only with superuser privilege. Both facts are
//! gathered once, passed in as a plain context value, and checked by a pure,
//! fully specified function before any mutation is planned.

use vstd::prelude::*;

verus! {

/// Immutable facts about the running host, created fresh on each invocation.
///
/// `marker_present` records whether the well-known marker path that
/// identifies a managed deployment host exists; `effective_uid` is the
/// effective user id of the calling process.
#[derive(Clone, Copy, PartialEq, Eq, Structural, Debug)]
pub struct HostContext {
    pub marker_present: bool,
    pub effective_uid: u32,
}

/// Why the environment guard refused to proceed.
#[derive(Clone, Copy, PartialEq, Eq, Structural, Debug)]
pub enum GuardError {
    /// The host does not expose the managed-host marker path.
    NotManagedHost,
    /// The calling process is not the superuser.
    InsufficientPrivilege,
}

/// A context passes the guard exactly when the host is managed and the
/// caller is the superuser (uid 0).
pub open spec fn guard_ok(ctx: HostContext) -> bool {
    ctx.marker_present && ctx.effective_uid == 0
}

/// Check the preconditions of the maintenance command. No side effects;
/// succeeds exactly on managed-host, superuser contexts, and names the
/// first failed precondition otherwise (the marker is consulted first).
pub fn check(ctx: &HostContext) -> (r: Result<(), GuardError>)
    ensures
        r is Ok <==> guard_ok(*ctx),
        r == Err::<(), GuardError>(GuardError::NotManagedHost) <==> !ctx.marker_present,
        r == Err::<(), GuardError>(GuardError::InsufficientPrivilege) <==> (ctx.marker_present
            && ctx.effective_uid != 0),
{
    if !ctx.marker_present {
        Err(GuardError::NotManagedHost)
    } else if ctx.effective_uid != 0 {
        Err(GuardError::InsufficientPrivilege)
    } else {
        Ok(())
    }
}

/// Relies on rustix::process::geteuid: returns the effective user id of the
/// calling process, as the raw kernel value. Nothing further can be promised
/// of it; callers treat every value as possible.
#[verifier::external_body]
fn effective_uid_raw() -> u32 {
    rustix::process::geteuid().as_raw()
}

/// Build the host context from a marker probe supplied by the caller and the
/// process's own effective user id.
pub fn context_from_marker(marker_present: bool) -> (ctx: HostContext)
    ensures
        ctx.marker_present == marker_present,
{
    HostContext { marker_present, effective_uid: effective_uid_raw() }
}

} // verus!
