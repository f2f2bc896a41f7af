//! The per-tick jitter algorithm of one worker.
//!
//! On each wake-up at monotonic time `now` (nanoseconds) the worker compares
//! the time elapsed since the previous wake-up with its interval. The
//! absolute difference, in whole microseconds, is the tick's jitter. It goes
//! to the histogram on every tick but the first, and to the high-water-mark
//! gauge only when it exceeds every jitter seen before. The worker bound to
//! CPU 0 also counts each of its ticks.

use vstd::prelude::*;
use vstd::math::abs;
use crate::worker::WorkerConfig;

verus! {

/// Nanoseconds in a microsecond.
pub const NANOS_PER_MICRO: u128 = 1000;

/// Where a worker stands in its lifecycle.
#[derive(PartialEq, Eq, Structural, Clone, Copy, Debug)]
pub enum Phase {
    Running,
    Stopped,
}

/// Why a tick was refused.
#[derive(PartialEq, Eq, Structural, Clone, Copy, Debug)]
pub enum TickError {
    /// The worker had already stopped.
    Stopped,
    /// The clock reading lies before the previous tick's.
    ClockWentBackwards,
}

/// What one tick hands to the metrics.
#[derive(PartialEq, Eq, Structural, Clone, Copy, Debug)]
pub struct TickOutcome {
    /// The jitter to record in the histogram, in microseconds; none on the
    /// first tick.
    pub jitter_us: Option<u128>,
    /// The new running maximum to set on the gauge; only on a strict increase.
    pub new_max_us: Option<u128>,
    /// Whether the global iteration counter goes up by one.
    pub count_iteration: bool,
    /// Whether the worker has stopped after this tick.
    pub stopped: bool,
}

/// The state of a worker, in mathematical terms.
pub struct WorkerView {
    pub cpu: nat,
    pub interval_ns: nat,
    pub prev: Option<nat>,
    pub max_jitter_us: nat,
    pub phase: Phase,
}

/// What a tick hands out, in mathematical terms.
pub struct TickView {
    pub jitter_us: Option<nat>,
    pub new_max_us: Option<nat>,
    pub count_iteration: bool,
    pub stopped: bool,
}

impl TickOutcome {
    pub open spec fn view(self) -> TickView {
        TickView {
            jitter_us: match self.jitter_us {
                Some(j) => Some(j as nat),
                None => None,
            },
            new_max_us: match self.new_max_us {
                Some(m) => Some(m as nat),
                None => None,
            },
            count_iteration: self.count_iteration,
            stopped: self.stopped,
        }
    }
}

/// The jitter of a tick that came `elapsed_ns` after the previous one, for a
/// worker with interval `interval_ns`: their absolute difference in whole
/// microseconds.
pub open spec fn jitter_of(elapsed_ns: int, interval_ns: nat) -> nat {
    abs(elapsed_ns - interval_ns) / (NANOS_PER_MICRO as nat)
}

/// The jitter of a tick at `now`, if an earlier tick exists.
pub open spec fn tick_jitter(s: WorkerView, now: nat) -> Option<nat> {
    match s.prev {
        Some(p) => Some(jitter_of(now - p, s.interval_ns)),
        None => None,
    }
}

/// What a tick at `now` hands out.
pub open spec fn tick_view(s: WorkerView, now: nat, stop: bool) -> TickView {
    TickView {
        jitter_us: tick_jitter(s, now),
        new_max_us: match tick_jitter(s, now) {
            Some(j) => if j > s.max_jitter_us { Some(j) } else { None },
            None => None,
        },
        count_iteration: s.cpu == 0,
        stopped: stop,
    }
}

/// The state after a tick at `now`.
pub open spec fn after_tick(s: WorkerView, now: nat, stop: bool) -> WorkerView {
    WorkerView {
        cpu: s.cpu,
        interval_ns: s.interval_ns,
        prev: Some(now),
        max_jitter_us: match tick_view(s, now, stop).new_max_us {
            Some(m) => m,
            None => s.max_jitter_us,
        },
        phase: if stop { Phase::Stopped } else { Phase::Running },
    }
}

/// A worker bound to one CPU, between ticks.
pub struct JitterWorker {
    cpu: usize,
    interval_ns: u128,
    prev: Option<u128>,
    max_jitter_us: u128,
    phase: Phase,
}

impl JitterWorker {
    pub closed spec fn view(&self) -> WorkerView {
        WorkerView {
            cpu: self.cpu as nat,
            interval_ns: self.interval_ns as nat,
            prev: match self.prev {
                Some(p) => Some(p as nat),
                None => None,
            },
            max_jitter_us: self.max_jitter_us as nat,
            phase: self.phase,
        }
    }

    /// The worker ticks at a positive interval.
    pub closed spec fn wf(&self) -> bool {
        self.interval_ns > 0
    }

    /// A running worker for `config` that has not ticked yet.
    pub fn new(config: &WorkerConfig) -> (r: JitterWorker)
        requires
            config.wf(),
        ensures
            r.wf(),
            r@ == initial_view(config.cpu_spec(), config.interval_spec()),
    {
        let interval_ns = config.interval_us() as u128 * NANOS_PER_MICRO;
        JitterWorker {
            cpu: config.cpu_id(),
            interval_ns,
            prev: None,
            max_jitter_us: 0,
            phase: Phase::Running,
        }
    }

    /// The running maximum jitter so far, in microseconds.
    pub fn max_jitter_us(&self) -> (r: u128)
        ensures
            r == self@.max_jitter_us,
    {
        self.max_jitter_us
    }

    /// Whether the worker has stopped.
    pub fn is_stopped(&self) -> (r: bool)
        ensures
            r == (self@.phase == Phase::Stopped),
    {
        self.phase == Phase::Stopped
    }

    /// One tick at monotonic time `now_ns`. `stop_requested` is the stop
    /// flag as read at the end of the tick: when it is set the worker stops
    /// after this tick's bookkeeping.
    pub fn tick(&mut self, now_ns: u128, stop_requested: bool) -> (r: Result<TickOutcome, TickError>)
        requires
            old(self).wf(),
        ensures
            final(self).wf(),
            final(self)@.max_jitter_us >= old(self)@.max_jitter_us,
            old(self)@.phase == Phase::Stopped ==> r == Err::<TickOutcome, TickError>(TickError::Stopped),
            old(self)@.phase == Phase::Running && (old(self)@.prev matches Some(p) && now_ns < p)
                ==> r == Err::<TickOutcome, TickError>(TickError::ClockWentBackwards),
            r is Err ==> final(self)@ == old(self)@,
            r matches Ok(out) ==> {
                &&& old(self)@.phase == Phase::Running
                &&& out@ == tick_view(old(self)@, now_ns as nat, stop_requested)
                &&& final(self)@ == after_tick(old(self)@, now_ns as nat, stop_requested)
            },
            old(self)@.phase == Phase::Running && !(old(self)@.prev matches Some(p) && now_ns < p)
                ==> r is Ok,
    {
        if self.phase == Phase::Stopped {
            return Err(TickError::Stopped);
        }
        let mut jitter_us: Option<u128> = None;
        let mut new_max_us: Option<u128> = None;
        if let Some(p) = self.prev {
            if now_ns < p {
                return Err(TickError::ClockWentBackwards);
            }
            let elapsed = now_ns - p;
            let diff = if elapsed > self.interval_ns {
                elapsed - self.interval_ns
            } else {
                self.interval_ns - elapsed
            };
            let j = diff / NANOS_PER_MICRO;
            jitter_us = Some(j);
            if j > self.max_jitter_us {
                self.max_jitter_us = j;
                new_max_us = Some(j);
            }
        }
        self.prev = Some(now_ns);
        if stop_requested {
            self.phase = Phase::Stopped;
        }
        let out = TickOutcome {
            jitter_us,
            new_max_us,
            count_iteration: self.cpu == 0,
            stopped: stop_requested,
        };
        assert(out@ == tick_view(old(self)@, now_ns as nat, stop_requested));
        assert(self@ == after_tick(old(self)@, now_ns as nat, stop_requested));
        Ok(out)
    }
}

/// The state of a new worker bound to `cpu` with an interval of
/// `interval_us` microseconds.
pub open spec fn initial_view(cpu: nat, interval_us: nat) -> WorkerView {
    WorkerView {
        cpu,
        interval_ns: interval_us * (NANOS_PER_MICRO as nat),
        prev: None,
        max_jitter_us: 0,
        phase: Phase::Running,
    }
}

/// The state of a worker after it ticked at each time of `ts` in turn, never
/// asked to stop.
pub open spec fn state_after(s: WorkerView, ts: Seq<nat>) -> WorkerView
    decreases ts.len(),
{
    if ts.len() == 0 {
        s
    } else {
        after_tick(state_after(s, ts.drop_last()), ts.last(), false)
    }
}

/// What each tick at the times of `ts` hands out, in order.
pub open spec fn ticks(s: WorkerView, ts: Seq<nat>) -> Seq<TickView> {
    Seq::new(ts.len(), |i: int| tick_view(state_after(s, ts.take(i)), ts[i], false))
}

/// The largest jitter among ticks at the times of `ts`, or zero.
pub open spec fn running_max(interval_ns: nat, ts: Seq<nat>) -> nat
    decreases ts.len(),
{
    if ts.len() < 2 {
        0
    } else {
        let m = running_max(interval_ns, ts.drop_last());
        let j = jitter_of(ts.last() - ts[ts.len() - 2], interval_ns);
        if j > m { j } else { m }
    }
}

/// How many of `t` count an iteration.
pub open spec fn iterations(t: Seq<TickView>) -> nat
    decreases t.len(),
{
    if t.len() == 0 {
        0
    } else {
        iterations(t.drop_last()) + if t.last().count_iteration { 1nat } else { 0nat }
    }
}

proof fn lemma_state_after(cpu: nat, interval_us: nat, ts: Seq<nat>)
    ensures
        state_after(initial_view(cpu, interval_us), ts) == (WorkerView {
            cpu,
            interval_ns: interval_us * (NANOS_PER_MICRO as nat),
            prev: if ts.len() == 0 { None } else { Some(ts.last()) },
            max_jitter_us: running_max(interval_us * (NANOS_PER_MICRO as nat), ts),
            phase: Phase::Running,
        }),
    decreases ts.len(),
{
    if ts.len() > 0 {
        lemma_state_after(cpu, interval_us, ts.drop_last());
        if ts.len() >= 2 {
            assert(ts.drop_last().last() == ts[ts.len() - 2]);
        }
    }
}

proof fn lemma_running_max_grows(interval_ns: nat, ts: Seq<nat>, a: int, b: int)
    requires
        0 <= a <= b <= ts.len(),
    ensures
        running_max(interval_ns, ts.take(a)) <= running_max(interval_ns, ts.take(b)),
    decreases b - a,
{
    if a < b {
        lemma_running_max_grows(interval_ns, ts, a, b - 1);
        assert(ts.take(b).drop_last() =~= ts.take(b - 1));
    }
}

proof fn lemma_tick(cpu: nat, interval_us: nat, ts: Seq<nat>, i: int)
    requires
        0 <= i < ts.len(),
    ensures
        ({
            let interval_ns = interval_us * (NANOS_PER_MICRO as nat);
            let t = ticks(initial_view(cpu, interval_us), ts)[i];
            &&& t.jitter_us == if i == 0 { None } else { Some(jitter_of(ts[i] - ts[i - 1], interval_ns)) }
            &&& t.new_max_us == if i > 0 && jitter_of(ts[i] - ts[i - 1], interval_ns) > running_max(interval_ns, ts.take(i)) {
                Some(running_max(interval_ns, ts.take(i + 1)))
            } else {
                None
            }
            &&& t.count_iteration == (cpu == 0)
        }),
{
    lemma_state_after(cpu, interval_us, ts.take(i));
    if i > 0 {
        assert(ts.take(i).last() == ts[i - 1]);
    }
    let interval_ns = interval_us * (NANOS_PER_MICRO as nat);
    let w = ts.take(i + 1);
    if i > 0 {
        assert(w.drop_last() =~= ts.take(i));
        assert(w.last() == ts[i] && w[w.len() - 2] == ts[i - 1]);
    }
}

/// Every tick after a worker's first records exactly one jitter value, the
/// absolute difference between the time elapsed since the previous tick and
/// the interval, in whole microseconds; the first tick records none.
pub proof fn law_one_jitter_record_per_tick_after_first(cpu: nat, interval_us: nat, ts: Seq<nat>)
    ensures
        forall|i: int|
            0 <= i < ts.len() ==> #[trigger] ticks(initial_view(cpu, interval_us), ts)[i].jitter_us == if i == 0 {
                None
            } else {
                Some(abs(ts[i] - ts[i - 1] - interval_us * (NANOS_PER_MICRO as nat)) / (NANOS_PER_MICRO as nat))
            },
{
    assert forall|i: int| 0 <= i < ts.len() implies #[trigger] ticks(initial_view(cpu, interval_us), ts)[i].jitter_us == if i == 0 {
        None
    } else {
        Some(abs(ts[i] - ts[i - 1] - interval_us * (NANOS_PER_MICRO as nat)) / (NANOS_PER_MICRO as nat))
    } by {
        lemma_tick(cpu, interval_us, ts, i);
    }
}

/// The gauge of a worker is set exactly on the ticks whose jitter exceeds
/// every earlier one, each time to the running maximum including that tick,
/// so the values it receives strictly increase.
pub proof fn law_gauge_tracks_strict_running_max(cpu: nat, interval_us: nat, ts: Seq<nat>)
    ensures
        forall|i: int|
            0 <= i < ts.len() ==> (#[trigger] ticks(initial_view(cpu, interval_us), ts)[i]).new_max_us == if i > 0
                && jitter_of(ts[i] - ts[i - 1], interval_us * (NANOS_PER_MICRO as nat)) > running_max(
                interval_us * (NANOS_PER_MICRO as nat),
                ts.take(i),
            ) {
                Some(running_max(interval_us * (NANOS_PER_MICRO as nat), ts.take(i + 1)))
            } else {
                None
            },
        forall|i: int, k: int|
            0 <= i < k < ts.len() && (#[trigger] ticks(initial_view(cpu, interval_us), ts)[i]).new_max_us is Some
                && (#[trigger] ticks(initial_view(cpu, interval_us), ts)[k]).new_max_us is Some
                ==> ticks(initial_view(cpu, interval_us), ts)[i].new_max_us.unwrap()
                < ticks(initial_view(cpu, interval_us), ts)[k].new_max_us.unwrap(),
{
    let interval_ns = interval_us * (NANOS_PER_MICRO as nat);
    assert forall|i: int| 0 <= i < ts.len() implies (#[trigger] ticks(initial_view(cpu, interval_us), ts)[i]).new_max_us == if i > 0
        && jitter_of(ts[i] - ts[i - 1], interval_ns) > running_max(interval_ns, ts.take(i)) {
        Some(running_max(interval_ns, ts.take(i + 1)))
    } else {
        None
    } by {
        lemma_tick(cpu, interval_us, ts, i);
    }
    assert forall|i: int, k: int|
        0 <= i < k < ts.len() && (#[trigger] ticks(initial_view(cpu, interval_us), ts)[i]).new_max_us is Some
            && (#[trigger] ticks(initial_view(cpu, interval_us), ts)[k]).new_max_us is Some implies ticks(
        initial_view(cpu, interval_us),
        ts,
    )[i].new_max_us.unwrap() < ticks(initial_view(cpu, interval_us), ts)[k].new_max_us.unwrap() by {
        lemma_tick(cpu, interval_us, ts, i);
        lemma_tick(cpu, interval_us, ts, k);
        lemma_running_max_grows(interval_ns, ts, i + 1, k);
        let w = ts.take(k + 1);
        assert(w.drop_last() =~= ts.take(k));
        assert(w.last() == ts[k] && w[w.len() - 2] == ts[k - 1]);
    }
}

/// Every tick of the worker bound to CPU 0 adds exactly one to the iteration
/// count, and no tick of another worker adds anything.
pub proof fn law_iterations_counted_by_cpu_zero(cpu: nat, interval_us: nat, ts: Seq<nat>)
    ensures
        forall|i: int|
            0 <= i < ts.len() ==> (#[trigger] ticks(initial_view(cpu, interval_us), ts)[i]).count_iteration == (cpu == 0),
        iterations(ticks(initial_view(cpu, interval_us), ts)) == if cpu == 0 { ts.len() } else { 0 },
    decreases ts.len(),
{
    assert forall|i: int| 0 <= i < ts.len() implies (#[trigger] ticks(initial_view(cpu, interval_us), ts)[i]).count_iteration == (cpu == 0) by {
        lemma_tick(cpu, interval_us, ts, i);
    }
    if ts.len() > 0 {
        let prefix = ts.drop_last();
        law_iterations_counted_by_cpu_zero(cpu, interval_us, prefix);
        let t = ticks(initial_view(cpu, interval_us), ts);
        assert forall|i: int| 0 <= i < prefix.len() implies t.drop_last()[i] == ticks(initial_view(cpu, interval_us), prefix)[i] by {
            assert(ts.take(i) =~= prefix.take(i));
        }
        assert(t.drop_last() =~= ticks(initial_view(cpu, interval_us), prefix));
    }
}

} // verus!
