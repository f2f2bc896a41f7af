//! Per-CPU scheduling-jitter measurement: the tick algorithm of one worker,
//! the plan of one worker per logical CPU, and the names under which the
//! measurements are exported.

pub mod naming;
pub mod worker;
pub mod jitter;
pub mod topology;
pub mod controller;
