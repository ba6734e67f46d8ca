//! The counter provider boundary: polling a live snapshot of the OS's
//! per-interface counters and running one full sampling cycle over it.

use vstd::prelude::*;

use crate::filter::Filter;
use crate::harvest::NetworkHarvest;
use crate::harvest::SamplingState;
use crate::rate::spec_elapsed_ms;
use crate::rate::spec_rate;
use crate::sample::InterfaceSample;
use crate::sample::compute_harvest;

verus! {

/// The one failure kind of a sampling cycle: the OS-level counter query
/// was unavailable (permission denied, API absent, transient OS error).
#[derive(Clone, Debug, PartialEq, Eq)]
pub enum NetError {
    ProviderUnavailable,
}

#[verifier::external_type_specification]
#[verifier::external_body]
pub struct ExNetworks(sysinfo::Networks);

#[verifier::external_type_specification]
#[verifier::external_body]
pub struct ExNetworkData(sysinfo::NetworkData);

/// Relies on iterating sysinfo::Networks and on
/// sysinfo::NetworkData::total_received and total_transmitted: one entry
/// per known interface, with its cumulative received and transmitted byte
/// counts. What comes back depends on the machine and on the snapshot's
/// refresh history, so nothing is promised of it; the verified callers
/// take the result as it is.
#[verifier::external_body]
fn read_interface_counters(networks: &sysinfo::Networks) -> (counters: Vec<(String, u64, u64)>) {
    let mut counters: Vec<(String, u64, u64)> = Vec::new();
    for (name, data) in networks {
        counters.push((name.clone(), data.total_received(), data.total_transmitted()));
    }
    counters
}

/// One sampling cycle against a live provider snapshot. With `actually_get`
/// false the provider is never read and the state is left untouched: the
/// call returns `None` at once. Otherwise the snapshot's byte counters are
/// normalized to bits and a full harvest is produced; whatever counters the
/// machine reported, the rates relate to the produced totals and the
/// previous state exactly as in a computed cycle, and the state advances to
/// the produced totals and the current time.
pub fn get_network_data(
    networks: &sysinfo::Networks,
    state: &mut SamplingState,
    curr_time_ms: u64,
    actually_get: bool,
    filter: &Option<Filter>,
) -> (r: Result<Option<NetworkHarvest>, NetError>)
    ensures
        !actually_get ==> r == Ok::<Option<NetworkHarvest>, NetError>(None) && *final(state)
            == *old(state),
        actually_get ==> match r {
            Ok(Some(h)) => {
                &&& h.rx == spec_rate(
                    h.total_rx,
                    old(state).prev_rx,
                    spec_elapsed_ms(old(state).prev_access_time_ms, curr_time_ms),
                )
                &&& h.tx == spec_rate(
                    h.total_tx,
                    old(state).prev_tx,
                    spec_elapsed_ms(old(state).prev_access_time_ms, curr_time_ms),
                )
                &&& final(state).prev_rx == h.total_rx
                &&& final(state).prev_tx == h.total_tx
                &&& final(state).prev_access_time_ms == curr_time_ms
            },
            _ => false,
        },
{
    if !actually_get {
        return Ok(None);
    }
    let mut counters = read_interface_counters(networks);
    let mut samples: Vec<InterfaceSample> = Vec::new();
    while counters.len() > 0
        decreases counters.len(),
    {
        let c = counters.pop().unwrap();
        samples.push(InterfaceSample::from_bytes(c.0, c.1, c.2));
    }
    let h = compute_harvest(&samples, filter, state, curr_time_ms);
    Ok(Some(h))
}

} // verus!
