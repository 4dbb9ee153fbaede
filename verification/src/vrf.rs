//! VRF interfaces as the kernel reports them.

use vstd::prelude::*;
use crate::base_iface::BaseInterface;
use crate::iface::{VrfConfig, VrfInterface};
use crate::kernel::VrfInfo;
use crate::text::{clone_strings, sort_strings, texts_sorted};

verus! {

/// The VRF interface for what the kernel reports of it: the given base, the
/// table of the VRF, and its ports in order. Without a report the interface
/// has no VRF configuration.
pub fn np_vrf_to_nmstate(np_vrf: Option<&VrfInfo>, base_iface: BaseInterface) -> (iface:
    VrfInterface)
    ensures
        iface.base == base_iface,
        match np_vrf {
            None => iface.vrf is None,
            Some(info) => {
                &&& iface.vrf matches Some(conf)
                &&& conf.table_id == Some(info.table_id)
                &&& conf.port matches Some(ports)
                &&& ports.deep_view().to_multiset() == info.subordinates.deep_view().to_multiset()
                &&& texts_sorted(ports.deep_view())
            },
        },
{
    let vrf_conf = match np_vrf {
        Some(np_vrf_info) => {
            let mut ports = clone_strings(&np_vrf_info.subordinates);
            sort_strings(&mut ports);
            Some(VrfConfig { table_id: Some(np_vrf_info.table_id), port: Some(ports) })
        },
        None => None,
    };
    VrfInterface { base: base_iface, vrf: vrf_conf }
}

} // verus!
