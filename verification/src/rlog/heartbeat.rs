use vstd::prelude::*;

use crate::rlog::config::SECONDARY_COUNT;

verus! {

/// What the master last learned of a secondary's health.
#[derive(Copy, Clone, PartialEq, Eq, Structural, Debug)]
pub enum HealthStatus {
    ALIVE,
    DEAD,
}

/// The HTTP status that a healthy secondary answers a probe with.
pub const STATUS_OK: u16 = 200;

/// The health that one probe shows: `None` when the probe got no answer,
/// else the status code of the answer. Only an OK answer shows a live node.
pub open spec fn probe_health(probe: Option<u16>) -> HealthStatus {
    if probe == Some(STATUS_OK) {
        HealthStatus::ALIVE
    } else {
        HealthStatus::DEAD
    }
}

/// The health that one probe shows.
pub fn health_of_probe(probe: Option<u16>) -> (h: HealthStatus)
    ensures
        h == probe_health(probe),
{
    match probe {
        Some(code) => {
            if code == STATUS_OK {
                HealthStatus::ALIVE
            } else {
                HealthStatus::DEAD
            }
        },
        None => HealthStatus::DEAD,
    }
}

/// The number of live entries in a health list.
pub open spec fn alive_count(health: Seq<HealthStatus>) -> nat
    decreases health.len(),
{
    if health.len() == 0 {
        0
    } else {
        alive_count(health.drop_last()) + if health.last() == HealthStatus::ALIVE {
            1nat
        } else {
            0nat
        }
    }
}

/// Records the outcome of one heartbeat round: the entry of the i-th
/// secondary becomes the health its probe shows.
pub fn update_health_status(health: &mut [HealthStatus; SECONDARY_COUNT], probes: &[Option<u16>])
    requires
        probes@.len() <= SECONDARY_COUNT,
    ensures
        forall|i: int|
            0 <= i < SECONDARY_COUNT ==> #[trigger] final(health)@[i] == if i < probes@.len() {
                probe_health(probes@[i])
            } else {
                old(health)@[i]
            },
{
    let n: usize = probes.len();
    let mut idx: usize = 0;
    while idx < n
        invariant
            n == probes@.len(),
            n <= SECONDARY_COUNT,
            idx <= n,
            forall|i: int|
                0 <= i < SECONDARY_COUNT ==> #[trigger] health@[i] == if i < idx {
                    probe_health(probes@[i])
                } else {
                    old(health)@[i]
                },
        decreases n - idx,
    {
        let status = health_of_probe(probes[idx]);
        health[idx] = status;
        idx = idx + 1;
    }
}

/// Counts the live entries of a health list.
pub fn count_alive(health: &[HealthStatus]) -> (n: usize)
    ensures
        n == alive_count(health@),
{
    let len: usize = health.len();
    let mut n: usize = 0;
    let mut idx: usize = 0;
    while idx < len
        invariant
            len == health@.len(),
            idx <= len,
            n == alive_count(health@.take(idx as int)),
            n <= idx,
        decreases len - idx,
    {
        assert(health@.take(idx + 1).drop_last() =~= health@.take(idx as int));
        if health[idx] == HealthStatus::ALIVE {
            n = n + 1;
        }
        idx = idx + 1;
    }
    assert(health@.take(len as int) =~= health@);
    n
}

} // verus!
