//! The plan of workers: one per discovered CPU, all with the same interval.

use vstd::prelude::*;
use crate::topology::cpu_range;
use crate::worker::WorkerConfig;

verus! {

/// The tick interval in microseconds when none is configured.
pub const DEFAULT_INTERVAL_US: u64 = 1000;

/// `configs` holds one well-formed configuration for each CPU of `cpus`, in
/// the same order, each ticking every `interval_us` microseconds.
pub open spec fn is_plan(cpus: Seq<usize>, interval_us: nat, configs: Seq<WorkerConfig>) -> bool {
    &&& configs.len() == cpus.len()
    &&& forall|i: int| 0 <= i < cpus.len() ==> {
        &&& (#[trigger] configs[i]).wf()
        &&& configs[i].cpu_spec() == cpus[i]
        &&& configs[i].interval_spec() == interval_us
    }
}

/// The worker configurations for the CPUs `cpus`, each ticking every
/// `interval_us` microseconds.
pub fn plan_workers(cpus: &[usize], interval_us: u64) -> (r: Vec<WorkerConfig>)
    requires
        interval_us > 0,
    ensures
        is_plan(cpus@, interval_us as nat, r@),
{
    let mut configs: Vec<WorkerConfig> = Vec::new();
    let mut i: usize = 0;
    while i < cpus.len()
        invariant
            i <= cpus.len(),
            interval_us > 0,
            is_plan(cpus@.take(i as int), interval_us as nat, configs@),
        decreases cpus.len() - i,
    {
        configs.push(WorkerConfig::new(cpus[i], interval_us));
        i = i + 1;
    }
    assert(cpus@.take(cpus.len() as int) =~= cpus@);
    configs
}

/// The interval configured in microseconds, or the default when none is.
pub fn interval_or_default(configured: Option<u64>) -> (r: u64)
    ensures
        r == match configured {
            Some(v) => v,
            None => DEFAULT_INTERVAL_US,
        },
{
    match configured {
        Some(v) => v,
        None => DEFAULT_INTERVAL_US,
    }
}

/// For a host with `n` CPUs, the plan holds exactly `n` workers, each bound
/// to a distinct CPU in `0..n`: the worker at position `c` is bound to CPU `c`.
pub proof fn law_one_worker_per_cpu(n: nat, interval_us: nat, configs: Seq<WorkerConfig>)
    requires
        n <= usize::MAX,
        is_plan(cpu_range(n), interval_us, configs),
    ensures
        configs.len() == n,
        forall|i: int| 0 <= i < n ==> (#[trigger] configs[i]).cpu_spec() < n,
        forall|i: int, j: int|
            0 <= i < j < n ==> (#[trigger] configs[i]).cpu_spec() != (#[trigger] configs[j]).cpu_spec(),
        forall|c: int| 0 <= c < n ==> (#[trigger] configs[c]).cpu_spec() == c,
{
    assert forall|c: int| 0 <= c < n implies (#[trigger] configs[c]).cpu_spec() == c by {
        assert(cpu_range(n)[c] == c as usize);
    }
}

} // verus!
