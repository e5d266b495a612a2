//! How the station and the access point get their addresses.

use vstd::prelude::*;

use crate::master::messages::interface_settings::{WiFiAccessPointSettings, WiFiStationSettings};
use crate::network::addressing;
use crate::network::addressing::{ap_ip_plan, client_ip_plan, NetifOp};
use crate::network::ipv4::InvalidArgument;

verus! {

/// The calls that give the station its address.
pub fn apply_sta_ip_settings(settings: &WiFiStationSettings) -> (r: Result<
    Vec<NetifOp>,
    InvalidArgument,
>)
    ensures
        addressing::ops_of(r) == addressing::client_ip_ops(settings.dhcp, settings.static_config),
{
    client_ip_plan(settings.dhcp, &settings.static_config)
}

/// The calls that give the access point its address.
pub fn apply_ap_ip_settings(settings: &WiFiAccessPointSettings) -> (r: Result<
    Vec<NetifOp>,
    InvalidArgument,
>)
    ensures
        addressing::ops_of(r) == addressing::ap_ip_ops(settings.enabled, settings.static_config@),
{
    ap_ip_plan(settings.enabled, &settings.static_config)
}

} // verus!
