//! Aggregating one poll's per-interface counters into host-wide totals and
//! deriving the rates of a full sampling cycle.

use vstd::prelude::*;

use crate::filter::Filter;
use crate::filter::should_include;
use crate::filter::spec_should_include;
use crate::harvest::NetworkHarvest;
use crate::harvest::SamplingState;
use crate::rate::clamp_u64;
use crate::rate::compute_rate;
use crate::rate::spec_elapsed_ms;
use crate::rate::spec_rate;

verus! {

/// One interface's cumulative counters for one poll, normalized to bits.
#[derive(Clone, Debug)]
pub struct InterfaceSample {
    pub name: String,
    pub rx_bits: u64,
    pub tx_bits: u64,
}

/// Saturating conversion of a cumulative byte count to bits.
fn bits_of_bytes(bytes: u64) -> (bits: u64)
    ensures
        bits == clamp_u64(bytes as int * 8),
{
    if bytes > u64::MAX / 8 {
        u64::MAX
    } else {
        bytes * 8
    }
}

impl InterfaceSample {
    /// A sample from a provider that reports its counters in bits.
    pub fn from_bits(name: String, rx_bits: u64, tx_bits: u64) -> (s: Self)
        ensures
            s.name == name,
            s.rx_bits == rx_bits,
            s.tx_bits == tx_bits,
    {
        InterfaceSample { name, rx_bits, tx_bits }
    }

    /// A sample from a provider that reports its counters in bytes,
    /// normalized to bits (saturating at the top of the range).
    pub fn from_bytes(name: String, rx_bytes: u64, tx_bytes: u64) -> (s: Self)
        ensures
            s.name == name,
            s.rx_bits == clamp_u64(rx_bytes as int * 8),
            s.tx_bits == clamp_u64(tx_bytes as int * 8),
    {
        let rx_bits = bits_of_bytes(rx_bytes);
        let tx_bits = bits_of_bytes(tx_bytes);
        InterfaceSample { name, rx_bits, tx_bits }
    }
}

/// The entries of a poll that were readable, in order, each unwrapped.
pub open spec fn spec_good_samples(entries: Seq<Option<InterfaceSample>>) -> Seq<InterfaceSample>
    decreases entries.len(),
{
    if entries.len() == 0 {
        Seq::empty()
    } else {
        spec_good_samples(entries.drop_last()) + match entries.last() {
            Some(s) => seq![s],
            None => Seq::empty(),
        }
    }
}

/// Keep the readable entries of a poll and silently skip the rest: a
/// provider whose contract allows individual per-interface entries to
/// fail must not blind the whole cycle, and this is the only partial
/// tolerance the design permits.
pub fn collect_samples(entries: Vec<Option<InterfaceSample>>) -> (samples: Vec<InterfaceSample>)
    ensures
        samples@ == spec_good_samples(entries@),
{
    let ghost all = entries@;
    let mut entries = entries;
    let mut samples: Vec<InterfaceSample> = Vec::new();
    let ghost mut done: Seq<Option<InterfaceSample>> = Seq::empty();
    while entries.len() > 0
        invariant
            all =~= done + entries@,
            samples@ == spec_good_samples(done),
        decreases entries@.len(),
    {
        let e = entries.remove(0);
        let ghost prev_done = done;
        proof {
            done = done.push(e);
        }
        match e {
            Some(s) => {
                samples.push(s);
            },
            None => {
            },
        }
        proof {
            assert(done.drop_last() =~= prev_done);
            assert(samples@ =~= spec_good_samples(done));
        }
    }
    proof {
        assert(done =~= all);
    }
    samples
}

/// The mathematical (unclamped) sum of received bits over the interfaces
/// of a poll that the filter includes.
pub open spec fn spec_rx_sum(samples: Seq<InterfaceSample>, filter: Option<Filter>) -> int
    decreases samples.len(),
{
    if samples.len() == 0 {
        0
    } else {
        spec_rx_sum(samples.drop_last(), filter) + if spec_should_include(
            samples.last().name@,
            filter,
        ) {
            samples.last().rx_bits as int
        } else {
            0
        }
    }
}

/// The mathematical (unclamped) sum of transmitted bits over the
/// interfaces of a poll that the filter includes.
pub open spec fn spec_tx_sum(samples: Seq<InterfaceSample>, filter: Option<Filter>) -> int
    decreases samples.len(),
{
    if samples.len() == 0 {
        0
    } else {
        spec_tx_sum(samples.drop_last(), filter) + if spec_should_include(
            samples.last().name@,
            filter,
        ) {
            samples.last().tx_bits as int
        } else {
            0
        }
    }
}

/// Both sums only ever add non-negative counters.
proof fn lemma_sums_nonneg(samples: Seq<InterfaceSample>, filter: Option<Filter>)
    ensures
        spec_rx_sum(samples, filter) >= 0,
        spec_tx_sum(samples, filter) >= 0,
    decreases samples.len(),
{
    if samples.len() > 0 {
        lemma_sums_nonneg(samples.drop_last(), filter);
    }
}

/// Sum the counters of every interface the filter includes into host-wide
/// cumulative totals `(rx, tx)` in bits, saturating at the top of `u64`.
pub fn aggregate_totals(samples: &Vec<InterfaceSample>, filter: &Option<Filter>) -> (totals: (
    u64,
    u64,
))
    ensures
        totals.0 == clamp_u64(spec_rx_sum(samples@, *filter)),
        totals.1 == clamp_u64(spec_tx_sum(samples@, *filter)),
{
    let mut total_rx: u64 = 0;
    let mut total_tx: u64 = 0;
    let n = samples.len();
    let mut i: usize = 0;
    while i < n
        invariant
            n == samples@.len(),
            i <= n,
            total_rx == clamp_u64(spec_rx_sum(samples@.subrange(0, i as int), *filter)),
            total_tx == clamp_u64(spec_tx_sum(samples@.subrange(0, i as int), *filter)),
        decreases n - i,
    {
        let ghost prefix = samples@.subrange(0, i as int);
        let ghost next_prefix = samples@.subrange(0, i as int + 1);
        proof {
            assert(next_prefix.drop_last() =~= prefix);
            lemma_sums_nonneg(prefix, *filter);
        }
        let s = &samples[i];
        if should_include(s.name.as_str(), filter) {
            total_rx = total_rx.saturating_add(s.rx_bits);
            total_tx = total_tx.saturating_add(s.tx_bits);
        }
        i = i + 1;
    }
    proof {
        assert(samples@.subrange(0, n as int) =~= samples@);
    }
    (total_rx, total_tx)
}

/// One full rate-computation step over an already-fetched poll: filter and
/// sum the interface counters, derive the rates from the previous sample,
/// and advance the sampling state to the current cycle. The rates are zero
/// when no time elapsed, and floor at zero when a counter reset below the
/// previous total.
pub fn compute_harvest(
    samples: &Vec<InterfaceSample>,
    filter: &Option<Filter>,
    state: &mut SamplingState,
    curr_time_ms: u64,
) -> (h: NetworkHarvest)
    ensures
        h.total_rx == clamp_u64(spec_rx_sum(samples@, *filter)),
        h.total_tx == clamp_u64(spec_tx_sum(samples@, *filter)),
        h.rx == spec_rate(
            h.total_rx,
            old(state).prev_rx,
            spec_elapsed_ms(old(state).prev_access_time_ms, curr_time_ms),
        ),
        h.tx == spec_rate(
            h.total_tx,
            old(state).prev_tx,
            spec_elapsed_ms(old(state).prev_access_time_ms, curr_time_ms),
        ),
        final(state).prev_rx == h.total_rx,
        final(state).prev_tx == h.total_tx,
        final(state).prev_access_time_ms == curr_time_ms,
        spec_elapsed_ms(old(state).prev_access_time_ms, curr_time_ms) == 0 ==> h.rx == 0 && h.tx
            == 0,
{
    let (total_rx, total_tx) = aggregate_totals(samples, filter);
    let elapsed_ms: u64 = curr_time_ms.saturating_sub(state.prev_access_time_ms);
    let rx = compute_rate(total_rx, state.prev_rx, elapsed_ms);
    let tx = compute_rate(total_tx, state.prev_tx, elapsed_ms);
    state.prev_rx = total_rx;
    state.prev_tx = total_tx;
    state.prev_access_time_ms = curr_time_ms;
    NetworkHarvest { rx, tx, total_rx, total_tx }
}

} // verus!
