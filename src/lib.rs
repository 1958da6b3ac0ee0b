//! Patch synchronisation between an upstream forge and a local mirror:
//! deterministic mirror placement, idempotent remote bookkeeping, patch
//! application and extraction, and a durable per-repository lock.
use vstd::prelude::*;

pub mod error;
pub mod text;
pub mod refs;
pub mod upstream;
pub mod identity;
pub mod lock;
pub mod git;
pub mod ignore;
pub mod repo;
pub mod system;

verus! {

/// Name of the remote that points at the upstream forge.
pub const UPSTREAM_REMOTE: &'static str = "forgefed_remote_upstream";

/// Name of the remote that points at the local mirror.
pub const LOCAL_REMOTE: &'static str = "forgefed_remote_local";

/// File at a mirror's root that lists paths kept out of outbound patches.
pub const IGNORE_FILE: &'static str = ".fignore";

/// Name of the per-repository configuration file.
pub const CONFIG_FILE: &'static str = "forgefed.toml";

} // verus!
