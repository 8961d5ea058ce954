//! Per-deployment remediation model. A deployment is abstracted to the slice
//! of it the fix reads: for each sensitive path, whether the file exists and
//! its current mode, plus whether the deployment accepts mode changes at all
//! (a read-only mount does not). Remediation sets every existing sensitive
//! file to the required owner-only mode, leaves missing files alone, and
//! succeeds exactly on writable deployments.

use vstd::prelude::*;

use crate::paths::REQUIRED_MODE;

verus! {

/// One sensitive path inside a deployment: whether the file exists, and the
/// permission bits it carries if it does. `mode` is meaningless when
/// `present` is false and is carried along unchanged.
#[derive(Clone, Copy, PartialEq, Eq, Structural, Debug)]
pub struct FileStatus {
    pub present: bool,
    pub mode: u32,
}

/// The remediation-relevant state of one deployment: the status of each
/// sensitive path (indexed as in `crate::paths::sensitive_paths`), and
/// whether mode changes on it can succeed.
pub struct DeploymentFs {
    pub files: Vec<FileStatus>,
    pub writable: bool,
}

/// Mathematical view of `DeploymentFs`.
#[verifier::ext_equal]
pub struct DepFsView {
    pub files: Seq<FileStatus>,
    pub writable: bool,
}

impl View for DeploymentFs {
    type V = DepFsView;

    open spec fn view(&self) -> DepFsView {
        DepFsView { files: self.files@, writable: self.writable }
    }
}

/// What remediation does to one file: an existing file gets the required
/// owner-only mode; a missing file is untouched and causes no error.
pub open spec fn fixed_file(f: FileStatus) -> FileStatus {
    if f.present {
        FileStatus { present: true, mode: REQUIRED_MODE }
    } else {
        f
    }
}

/// What remediation does to a deployment's files.
pub open spec fn fixed_files(files: Seq<FileStatus>) -> Seq<FileStatus> {
    files.map_values(|f: FileStatus| fixed_file(f))
}

/// The state of a deployment after one remediation attempt: a writable
/// deployment has all its existing sensitive files set to the required
/// mode; an unwritable one is unchanged.
pub open spec fn dep_after(d: DepFsView) -> DepFsView {
    if d.writable {
        DepFsView { files: fixed_files(d.files), writable: d.writable }
    } else {
        d
    }
}

/// Attempt to remediate one deployment. Returns the deployment state after
/// the attempt together with whether the attempt succeeded: exactly the
/// writable deployments succeed, and on success every existing sensitive
/// file carries the required mode afterwards.
pub fn remediate_deployment(d: &DeploymentFs) -> (r: (DeploymentFs, bool))
    ensures
        r.0@ == dep_after(d@),
        r.1 == d.writable,
{
    let mut files: Vec<FileStatus> = Vec::new();
    let mut k: usize = 0;
    while k < d.files.len()
        invariant
            k <= d.files@.len(),
            files@.len() == k,
            forall|i: int| 0 <= i < k ==> #[trigger] files@[i] == (
            if d.writable {
                fixed_file(d.files@[i])
            } else {
                d.files@[i]
            }),
        decreases d.files@.len() - k,
    {
        let f = d.files[k];
        if d.writable && f.present {
            files.push(FileStatus { present: true, mode: REQUIRED_MODE });
        } else {
            files.push(f);
        }
        k += 1;
    }
    proof {
        if d.writable {
            assert(files@ =~= fixed_files(d.files@));
        } else {
            assert(files@ =~= d.files@);
        }
    }
    (DeploymentFs { files, writable: d.writable }, d.writable)
}

/// Remediating a deployment is idempotent: a second attempt changes
/// nothing, whether or not the deployment is writable.
pub proof fn lemma_dep_after_idempotent(d: DepFsView)
    ensures
        dep_after(dep_after(d)) == dep_after(d),
{
    if d.writable {
        assert(fixed_files(fixed_files(d.files)) =~= fixed_files(d.files));
        assert(dep_after(dep_after(d)) =~= dep_after(d));
    }
}

/// After remediating a writable deployment, every sensitive file that
/// exists carries the required owner-only mode, no file is created or
/// removed, and a missing file is untouched.
pub proof fn lemma_remediated_modes(d: DepFsView)
    requires
        d.writable,
    ensures
        dep_after(d).files.len() == d.files.len(),
        forall|i: int|
            0 <= i < d.files.len() ==> (#[trigger] dep_after(d).files[i]).present
                == d.files[i].present,
        forall|i: int|
            0 <= i < d.files.len() && d.files[i].present ==> (#[trigger] dep_after(
                d,
            ).files[i]).mode == REQUIRED_MODE,
        forall|i: int|
            0 <= i < d.files.len() && !d.files[i].present ==> #[trigger] dep_after(d).files[i]
                == d.files[i],
{
}

} // verus!
