//! Resource limits and the backend request derived from them.
//!
//! The external control-group backend is asked to create a transient scope
//! unit bound to the container's process, with accounting enabled and three
//! ceilings set. This module derives that request; sending it is the
//! surrounding binary's job.

use vstd::prelude::*;
use crate::names::{
    scope_description,
    scope_unit_name,
    spec_scope_description,
    spec_scope_unit_name,
};

verus! {

/// Default memory ceiling, in bytes.
pub const DEFAULT_MEM_LIMIT_BYTES: u64 = 2000000;

/// Default CPU quota, in hundredths of one core.
pub const DEFAULT_CPU_QUOTA_PERCENT: u32 = 512;

/// Default ceiling on the number of processes inside the container.
pub const DEFAULT_PID_LIMIT: i32 = 100;

/// The ceilings a container runs under. The CPU quota is a fraction of one
/// core expressed in hundredths, so 100 means one full core.
#[derive(Debug, Clone, Copy, PartialEq, Eq, Structural)]
pub struct ResourceLimits {
    pub memory_bytes: u64,
    pub cpu_quota_percent: u32,
    pub max_pids: i32,
}

/// The CPU quota a scope unit is configured with: microseconds of CPU time
/// per second of wall-clock time, derived from the quota in hundredths.
pub open spec fn spec_cpu_quota_usec(percent: u32) -> int {
    percent * 1000000
}

/// One request to the resource-limit backend: create a transient scope unit
/// of the given name, bind it to the target process, enable accounting, and
/// set the three ceilings.
#[derive(Debug, Clone)]
pub struct LimitRequest {
    pub unit_name: String,
    pub description: String,
    pub target_pid: u32,
    pub memory_accounting: bool,
    pub memory_max_bytes: u64,
    pub cpu_accounting: bool,
    pub cpu_quota_per_sec_usec: u64,
    pub tasks_accounting: bool,
    pub tasks_max: u64,
}

/// The limits used when the caller does not choose their own.
pub fn default_limits() -> (l: ResourceLimits)
    ensures
        l.memory_bytes == DEFAULT_MEM_LIMIT_BYTES,
        l.cpu_quota_percent == DEFAULT_CPU_QUOTA_PERCENT,
        l.max_pids == DEFAULT_PID_LIMIT,
{
    ResourceLimits {
        memory_bytes: DEFAULT_MEM_LIMIT_BYTES,
        cpu_quota_percent: DEFAULT_CPU_QUOTA_PERCENT,
        max_pids: DEFAULT_PID_LIMIT,
    }
}

/// Derives the backend request for applying `limits` to `target_pid` under
/// the scope unit named after `container_id`. The CPU ceiling is the quota
/// in hundredths of a core times one million microseconds; the task ceiling
/// is the pid limit reinterpreted as unsigned, as the backend field is.
pub fn build_limit_request(container_id: &str, target_pid: u32, limits: &ResourceLimits) -> (req:
    LimitRequest)
    ensures
        req.unit_name@ == spec_scope_unit_name(container_id@),
        req.description@ == spec_scope_description(container_id@),
        req.target_pid == target_pid,
        req.memory_accounting,
        req.memory_max_bytes == limits.memory_bytes,
        req.cpu_accounting,
        req.cpu_quota_per_sec_usec == spec_cpu_quota_usec(limits.cpu_quota_percent),
        req.tasks_accounting,
        req.tasks_max == limits.max_pids as u64,
{
    let quota_usec: u64 = (limits.cpu_quota_percent as u64) * 1000000;
    LimitRequest {
        unit_name: scope_unit_name(container_id),
        description: scope_description(container_id),
        target_pid,
        memory_accounting: true,
        memory_max_bytes: limits.memory_bytes,
        cpu_accounting: true,
        cpu_quota_per_sec_usec: quota_usec,
        tasks_accounting: true,
        tasks_max: limits.max_pids as u64,
    }
}

} // verus!
