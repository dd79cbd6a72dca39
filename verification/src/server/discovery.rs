use vstd::prelude::*;

use crate::server::actions::TapoDeviceType;
use crate::server::state::LoadedConfig;

verus! {

/// One known device, as the discovery listing reports it.
pub struct DiscoveredDevice {
    pub name: String,
    pub device_type: TapoDeviceType,
}

/// The discovery listing: every device of the current generation.
pub struct DiscoveryResult {
    pub devices: Vec<DiscoveredDevice>,
}

/// Lists the current generation's devices by name and model.
pub fn discover_devices(loaded: &LoadedConfig) -> (r: DiscoveryResult)
    ensures
        r.devices@.len() == loaded.devices@.len(),
        forall|i: int|
            0 <= i < r.devices@.len() ==> {
                &&& (#[trigger] r.devices@[i]).name@ == loaded.devices@[i].spec_conn_infos().name@
                &&& r.devices@[i].device_type == loaded.devices@[i].spec_conn_infos().device_type
            },
{
    let mut out: Vec<DiscoveredDevice> = Vec::new();
    let mut i: usize = 0;
    while i < loaded.devices.len()
        invariant
            0 <= i <= loaded.devices@.len(),
            out@.len() == i,
            forall|j: int|
                0 <= j < i ==> {
                    &&& (#[trigger] out@[j]).name@ == loaded.devices@[j].spec_conn_infos().name@
                    &&& out@[j].device_type == loaded.devices@[j].spec_conn_infos().device_type
                },
        decreases loaded.devices@.len() - i,
    {
        let infos = loaded.devices[i].conn_infos();
        out.push(
            DiscoveredDevice { name: infos.name.clone(), device_type: infos.device_type },
        );
        i += 1;
    }
    DiscoveryResult { devices: out }
}

} // verus!
