//! The fixed configuration of one measurement worker: its name, the CPU it is
//! pinned to, its tick interval and its real-time scheduling options.

use vstd::prelude::*;
use crate::naming::{worker_name, worker_name_of};

verus! {

/// The fixed real-time priority of every worker.
pub const WORKER_PRIORITY: i32 = 90;

/// Configuration of the worker bound to one CPU: built once, never changed.
pub struct WorkerConfig {
    name: String,
    cpu_ids: [usize; 1],
    interval_us: u64,
}

impl WorkerConfig {
    /// The CPU the worker is bound to.
    pub closed spec fn cpu_spec(&self) -> nat {
        self.cpu_ids[0] as nat
    }

    /// The tick interval in microseconds.
    pub closed spec fn interval_spec(&self) -> nat {
        self.interval_us as nat
    }

    /// The name of the worker thread.
    pub closed spec fn name_spec(&self) -> Seq<char> {
        self.name@
    }

    /// The worker is named after its CPU and ticks with a positive interval.
    pub open spec fn wf(&self) -> bool {
        &&& self.name_spec() == worker_name_of(self.cpu_spec())
        &&& self.interval_spec() > 0
    }

    /// The configuration of the worker bound to `cpu`, ticking every
    /// `interval_us` microseconds.
    pub fn new(cpu: usize, interval_us: u64) -> (r: WorkerConfig)
        requires
            interval_us > 0,
        ensures
            r.wf(),
            r.cpu_spec() == cpu,
            r.interval_spec() == interval_us,
    {
        WorkerConfig { name: worker_name(cpu), cpu_ids: [cpu], interval_us }
    }

    /// The name of the worker thread.
    pub fn worker_name(&self) -> (r: &str)
        ensures
            r@ == self.name_spec(),
    {
        self.name.as_str()
    }

    /// The CPU the worker is bound to.
    pub fn cpu_id(&self) -> (r: usize)
        ensures
            r == self.cpu_spec(),
    {
        self.cpu_ids[0]
    }

    /// The tick interval in microseconds.
    pub fn interval_us(&self) -> (r: u64)
        ensures
            r == self.interval_spec(),
    {
        self.interval_us
    }

    /// The priority of the worker under fixed-priority scheduling.
    pub fn worker_priority(&self) -> (r: Option<i32>)
        ensures
            r == Some(WORKER_PRIORITY),
    {
        Some(WORKER_PRIORITY)
    }

    /// The CPUs the worker may run on: its own CPU alone.
    pub fn worker_cpu_ids(&self) -> (r: Option<&[usize]>)
        ensures
            r matches Some(ids) && ids@ == seq![self.cpu_spec() as usize],
    {
        let ids: &[usize] = vstd::array::array_as_slice(&self.cpu_ids);
        assert(ids@ =~= seq![self.cpu_spec() as usize]);
        Some(ids)
    }

    /// A worker blocks its own thread between ticks.
    pub fn worker_is_blocking(&self) -> (r: bool)
        ensures
            r,
    {
        true
    }
}

} // verus!
