//! The output snapshot of one sampling cycle, and the state that persists
//! between cycles.

use vstd::prelude::*;

verus! {

/// One produced snapshot. All units are bits: `rx` and `tx` are
/// instantaneous rates in bits per second, `total_rx` and `total_tx` are
/// cumulative bit counts over all included interfaces.
#[derive(Clone, Debug)]
pub struct NetworkHarvest {
    pub rx: u64,
    pub tx: u64,
    pub total_rx: u64,
    pub total_tx: u64,
}

impl NetworkHarvest {
    /// Zero the reported rates while keeping the cumulative totals. The
    /// caller applies this to the very first snapshot after process start,
    /// whose rates would otherwise be an artifact of counters that the OS
    /// accumulated before monitoring began.
    pub fn first_run_cleanup(&mut self)
        ensures
            final(self).rx == 0,
            final(self).tx == 0,
            final(self).total_rx == old(self).total_rx,
            final(self).total_tx == old(self).total_tx,
    {
        self.rx = 0;
        self.tx = 0;
    }
}

impl Default for NetworkHarvest {
    /// An empty snapshot: no traffic seen, no rate.
    fn default() -> (h: Self)
        ensures
            h.rx == 0,
            h.tx == 0,
            h.total_rx == 0,
            h.total_tx == 0,
    {
        NetworkHarvest { rx: 0, tx: 0, total_rx: 0, total_tx: 0 }
    }
}

/// State owned by the harvest loop and threaded through every sampling
/// call: the previous cycle's cumulative totals (in bits) and the previous
/// sample's timestamp, in milliseconds of some monotonic clock.
#[derive(Clone, Debug)]
pub struct SamplingState {
    pub prev_rx: u64,
    pub prev_tx: u64,
    pub prev_access_time_ms: u64,
}

impl SamplingState {
    /// The state before the first sample: both previous counters start at
    /// zero, so no delta can inherit whatever the OS had already counted.
    pub fn new() -> (s: Self)
        ensures
            s.prev_rx == 0,
            s.prev_tx == 0,
            s.prev_access_time_ms == 0,
    {
        SamplingState { prev_rx: 0, prev_tx: 0, prev_access_time_ms: 0 }
    }
}

impl Default for SamplingState {
    fn default() -> (s: Self)
        ensures
            s.prev_rx == 0,
            s.prev_tx == 0,
            s.prev_access_time_ms == 0,
    {
        SamplingState::new()
    }
}

} // verus!
