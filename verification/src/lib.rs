//! Host-provisioning library: layered configuration resolution and an
//! idempotent provisioning planner.
//!
//! Every value is resolved through an ordered precedence chain (explicit
//! flag, override map, environment snapshot, interactive reply), and every
//! command is turned into a plan of actions that a thin front end executes.

use vstd::prelude::*;

pub mod certcmd;
pub mod cli;
pub mod envmap;
pub mod laws;
pub mod nginxcfg;
pub mod osinfo;
pub mod plan;
pub mod prompt;
pub mod resolve;
pub mod setup;
pub mod strutil;
pub mod table;

verus! {

/// Seconds a bounded interactive prompt waits before falling back to its
/// default answer.
pub const DEFAULT_PROMPT_TIMEOUT_SECS: u64 = 10;

} // verus!
