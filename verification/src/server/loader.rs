use vstd::prelude::*;

use crate::config::Config;
use crate::devices::{ConnState, TapoDevice};

verus! {

/// Builds one managed device per configured descriptor, each disconnected:
/// registry construction never blocks on device network I/O. A separate
/// bulk pass run by the surrounding process may then pre-warm connections
/// concurrently, tolerating per-device failures without failing startup.
pub fn build_devices(config: &Config) -> (r: Vec<TapoDevice>)
    ensures
        r@.len() == config.devices@.len(),
        forall|i: int|
            0 <= i < r@.len() ==> {
                &&& (#[trigger] r@[i]).spec_conn_infos() == config.devices@[i]
                &&& r@[i].spec_credentials() == config.tapo_credentials
                &&& r@[i].spec_conn() == ConnState::Disconnected
            },
{
    let mut out: Vec<TapoDevice> = Vec::new();
    let mut i: usize = 0;
    while i < config.devices.len()
        invariant
            0 <= i <= config.devices@.len(),
            out@.len() == i,
            forall|j: int|
                0 <= j < i ==> {
                    &&& (#[trigger] out@[j]).spec_conn_infos() == config.devices@[j]
                    &&& out@[j].spec_credentials() == config.tapo_credentials
                    &&& out@[j].spec_conn() == ConnState::Disconnected
                },
        decreases config.devices@.len() - i,
    {
        out.push(
            TapoDevice::new(config.devices[i].duplicate(), config.tapo_credentials.duplicate()),
        );
        i += 1;
    }
    out
}

} // verus!
