//! Verified core of a one-shot, idempotent host-maintenance operation for an
//! image-based, deployment-oriented operating system.
//!
//! The host keeps several immutable deployments (bootable filesystem trees).
//! A hidden maintenance command tightens the file modes of the credential
//! (shadow) files inside every deployment, exactly once per host, guarded by
//! a durable stamp file. This crate holds the verified decision core: the
//! environment guard, the fixed set of sensitive paths, the remediation model
//! with its idempotence and stamp invariants, and the request-counter record.
//! The thin unverified shell around it performs the actual filesystem probes,
//! mode changes and atomic writes, and feeds their outcomes back in as plain
//! values.

pub mod counter;
pub mod guard;
pub mod paths;
pub mod remedy;
pub mod run;
