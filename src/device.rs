use vstd::prelude::*;

verus! {

/// One inventory entry as the controller reports it; any field may be absent.
#[derive(Clone, Debug, PartialEq, Eq, Default)]
pub struct Device {
    pub hostname: Option<String>,
    pub mac_address: Option<String>,
    pub ap_ethernet_mac_address: Option<String>,
    pub management_ip_address: Option<String>,
    pub serial_number: Option<String>,
    pub associated_wlc_ip: Option<String>,
    pub software_version: Option<String>,
}

} // verus!
