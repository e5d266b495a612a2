//! The number of interfaces with a link, which the NTP client looks at.

use vstd::prelude::*;

use crate::network::ethernet;
use crate::network::ethernet::EthernetTask;
use crate::network::ethernet_laws;
use crate::network::tasks;
use crate::network::wifi::task;
use crate::network::wifi::task::WifiTask;
use crate::network::wifi::task_laws;

verus! {

/// How many of the two interfaces have a link.
pub open spec fn links(wifi: WifiTask, ethernet: EthernetTask) -> int {
    (if wifi.link_registered {
        1int
    } else {
        0
    }) + (if ethernet.link_registered {
        1int
    } else {
        0
    })
}

/// A count that is kept by the effects of both tasks stays the number of interfaces with a
/// link, whatever either task is told: it never falls below 0 nor rises above 2.
pub proof fn law_link_count_is_exact(
    wifi: WifiTask,
    ethernet: EthernetTask,
    wifi_event: task::Event,
    ethernet_event: ethernet::Event,
    now: u64,
    count: int,
)
    requires
        count == links(wifi, ethernet),
    ensures
        0 <= count <= 2,
        count + tasks::link_change(wifi.after(wifi_event, now).1) == links(
            wifi.after(wifi_event, now).0,
            ethernet,
        ),
        count + tasks::link_change(ethernet.after(ethernet_event, now).1) == links(
            wifi,
            ethernet.after(ethernet_event, now).0,
        ),
{
    task_laws::law_links_are_counted(wifi, wifi_event, now);
    ethernet_laws::law_links_are_counted(ethernet, ethernet_event, now);
}

} // verus!
