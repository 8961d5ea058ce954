//! Fixed path knowledge of the maintenance command: the well-known marker
//! path of a managed host, the versioned stamp path of the idempotency
//! ledger, the enumerated set of sensitive (credential) paths inside a
//! deployment, and the owner-only mode they must carry.

use vstd::prelude::*;

verus! {

/// Number of sensitive relative paths inside one deployment.
pub const SENSITIVE_PATH_COUNT: usize = 4;

/// Required mode of every sensitive path: owner read/write, nothing for
/// group or other.
pub const REQUIRED_MODE: u32 = 0o600;

/// The relative path of the sensitive file with index `i`: the shadow
/// password files and their backup variants.
pub open spec fn sensitive_path_spec(i: int) -> Seq<char> {
    if i == 0 {
        "etc/shadow"@
    } else if i == 1 {
        "etc/shadow-"@
    } else if i == 2 {
        "etc/gshadow"@
    } else {
        "etc/gshadow-"@
    }
}

/// The fixed set of sensitive relative paths, in index order.
pub fn sensitive_paths() -> (v: Vec<&'static str>)
    ensures
        v@.len() == SENSITIVE_PATH_COUNT,
        forall|i: int| 0 <= i < v@.len() ==> (#[trigger] v@[i])@ == sensitive_path_spec(i),
{
    let mut v: Vec<&'static str> = Vec::new();
    v.push("etc/shadow");
    v.push("etc/shadow-");
    v.push("etc/gshadow");
    v.push("etc/gshadow-");
    v
}

/// The well-known path whose existence marks a managed deployment host.
/// Consulted read-only by the shell around this crate.
pub fn marker_path() -> (s: &'static str)
    ensures
        s@ == "/run/ostree-booted"@,
{
    "/run/ostree-booted"
}

/// The stamp path of the persistent-flag ledger for the fix generation
/// named by `version`. Distinct versions yield distinct paths, so a future,
/// unrelated fix can reuse the mechanism without colliding.
pub fn stamp_path_for(version: &str) -> (s: String)
    ensures
        s@ == "/etc/."@ + version@ + ".stamp"@,
{
    let mut s = "/etc/.".to_owned();
    s.append(version);
    s.append(".stamp");
    s
}

/// The ledger version key of the shadow-mode fix this crate implements.
pub fn shadow_fix_version() -> (s: &'static str)
    ensures
        s@ == "shadow-mode-fixed2"@,
{
    "shadow-mode-fixed2"
}

/// The absolute path of `rel` under the deployment root `root`.
pub fn target_path(root: &str, rel: &str) -> (s: String)
    ensures
        s@ == root@ + "/"@ + rel@,
{
    let mut s = root.to_owned();
    s.append("/");
    s.append(rel);
    s
}

/// The absolute path of the sensitive file with index `i` under a
/// deployment rooted at `root`.
pub open spec fn target_spec(root: Seq<char>, i: int) -> Seq<char> {
    root + "/"@ + sensitive_path_spec(i)
}

/// All sensitive paths of the deployment rooted at `root`, in index order.
pub fn deployment_targets(root: &str) -> (v: Vec<String>)
    ensures
        v@.len() == SENSITIVE_PATH_COUNT,
        forall|i: int| 0 <= i < v@.len() ==> (#[trigger] v@[i])@ == target_spec(root@, i),
{
    let rels = sensitive_paths();
    let mut v: Vec<String> = Vec::new();
    let mut k: usize = 0;
    while k < rels.len()
        invariant
            rels@.len() == SENSITIVE_PATH_COUNT,
            forall|i: int| 0 <= i < rels@.len() ==> (#[trigger] rels@[i])@ == sensitive_path_spec(i),
            k <= rels@.len(),
            v@.len() == k,
            forall|i: int| 0 <= i < k ==> (#[trigger] v@[i])@ == target_spec(root@, i),
        decreases rels@.len() - k,
    {
        v.push(target_path(root, rels[k]));
        k += 1;
    }
    v
}

} // verus!
