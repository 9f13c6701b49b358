//! The high-memory-pressure warning: when the process uses at least a threshold
//! percentage of the system's memory, and how the warning reads.
use vstd::prelude::*;

verus! {

/// Memory use that crossed the threshold.
#[derive(PartialEq, Eq, Structural, Clone, Copy, Debug)]
pub struct MemoryPressureHigh {
    /// Total system memory, in bytes.
    pub system_total_memory: u64,
    /// Memory used by the process, in bytes.
    pub process_memory: u64,
}

/// Appended to the warning outside the open-source build.
pub const SYSTEM_MEMORY_REMEDIATION_LINK: &'static str = ": https://fburl.com/buck2_mem_remediation";

/// The process's share of system memory, in whole percent (rounded down).
pub open spec fn memory_percent(process_memory: u64, system_total_memory: u64) -> int {
    (process_memory * 100) / (system_total_memory as int)
}

/// Whether memory pressure is high: a threshold is configured, the process's memory use
/// is known, and its percentage of system memory reaches the threshold.
///
/// `process_memory` is the process's memory as read from the latest snapshot (`None`
/// without a snapshot or without a reading).
pub fn check_memory_pressure(
    process_memory: Option<u64>,
    system_total_memory: u64,
    memory_pressure_threshold_percent: Option<u64>,
) -> (r: Option<MemoryPressureHigh>)
    requires
        memory_pressure_threshold_percent is Some && process_memory is Some ==> {
            &&& system_total_memory > 0
            &&& process_memory->Some_0 * 100 <= u64::MAX
        },
    ensures
        r == match (memory_pressure_threshold_percent, process_memory) {
            (Some(t), Some(p)) => if memory_percent(p, system_total_memory) >= t {
                Some(MemoryPressureHigh { system_total_memory, process_memory: p })
            } else {
                None
            },
            _ => None,
        },
{
    match memory_pressure_threshold_percent {
        None => None,
        Some(threshold) => match process_memory {
            None => None,
            Some(process_memory) => {
                if process_memory * 100 / system_total_memory >= threshold {
                    Some(MemoryPressureHigh { system_total_memory, process_memory })
                } else {
                    None
                }
            },
        },
    }
}

/// The warning for high memory pressure, given the process's and the system's memory as
/// human-readable sizes; outside the open-source build it ends with a remediation link.
pub fn system_memory_exceeded_msg(process_memory: &str, system_total_memory: &str, is_open_source: bool) -> (r: String)
    ensures
        r@ == "High memory pressure: buck2 is using "@ + process_memory@ + " out of "@
            + system_total_memory@ + (if is_open_source {
            Seq::<char>::empty()
        } else {
            SYSTEM_MEMORY_REMEDIATION_LINK@
        }),
{
    let mut msg = "High memory pressure: buck2 is using ".to_owned();
    msg.append(process_memory);
    msg.append(" out of ");
    msg.append(system_total_memory);
    if !is_open_source {
        msg.append(SYSTEM_MEMORY_REMEDIATION_LINK);
    }
    msg
}

/// The percentage is the floor of the true share: `percent * total <= process * 100 <
/// (percent + 1) * total`.
pub proof fn lemma_memory_percent_is_floor(process_memory: u64, system_total_memory: u64)
    requires
        system_total_memory > 0,
    ensures
        memory_percent(process_memory, system_total_memory) * system_total_memory
            <= process_memory * 100,
        process_memory * 100 < (memory_percent(process_memory, system_total_memory) + 1)
            * system_total_memory,
        memory_percent(process_memory, system_total_memory) >= 0,
{
    let n: int = process_memory * 100;
    let d: int = system_total_memory as int;
    let q = n / d;
    assert(q * d <= n && n < (q + 1) * d && q >= 0) by (nonlinear_arith)
        requires
            d > 0,
            n >= 0,
            q == n / d,
    ;
}

} // verus!
