//! How an interface gets its address: by DHCP, or from a static configuration.

use vstd::prelude::*;

use crate::bytes;
use crate::network::ipv4;
use crate::network::ipv4::{parse_ipv4, InvalidArgument};

verus! {

/// The platform's code for an invalid argument.
pub const ESP_ERR_INVALID_ARG: i32 = 0x102;

/// A static configuration.
#[derive(Clone, Copy, Debug)]
pub struct StaticClientSettings {
    pub ip: [u8; 4],
    pub netmask: [u8; 4],
    pub gateway: [u8; 4],
    pub dns: Option<[u8; 4]>,
    pub secondary_dns: Option<[u8; 4]>,
}

/// What a static configuration says.
pub struct StaticAddresses {
    pub ip: Seq<u8>,
    pub netmask: Seq<u8>,
    pub gateway: Seq<u8>,
    pub dns: Option<Seq<u8>>,
    pub secondary_dns: Option<Seq<u8>>,
}

/// The octets of an address that may be missing.
pub open spec fn optional_octets(address: Option<[u8; 4]>) -> Option<Seq<u8>> {
    match address {
        Some(octets) => Some(octets@),
        None => None,
    }
}

impl View for StaticClientSettings {
    type V = StaticAddresses;

    open spec fn view(&self) -> StaticAddresses {
        StaticAddresses {
            ip: self.ip@,
            netmask: self.netmask@,
            gateway: self.gateway@,
            dns: optional_octets(self.dns),
            secondary_dns: optional_octets(self.secondary_dns),
        }
    }
}

/// The view of a parsed configuration.
pub open spec fn addresses_of(r: Result<StaticClientSettings, InvalidArgument>) -> Result<
    StaticAddresses,
    InvalidArgument,
> {
    match r {
        Ok(settings) => Ok(settings@),
        Err(e) => Err(e),
    }
}

/// The address that a text stands for; an empty text stands for none.
pub open spec fn optional_address(text: Seq<char>) -> Result<Option<Seq<u8>>, InvalidArgument> {
    if text.len() == 0 {
        Ok(None)
    } else {
        match ipv4::ipv4_address(text) {
            Ok(octets) => Ok(Some(octets)),
            Err(e) => Err(e),
        }
    }
}

pub fn parse_optional_ipv4(value: &str) -> (r: Result<Option<[u8; 4]>, InvalidArgument>)
    ensures
        match r {
            Ok(address) => optional_address(value@) == Ok::<Option<Seq<u8>>, InvalidArgument>(
                optional_octets(address),
            ),
            Err(e) => optional_address(value@) == Err::<Option<Seq<u8>>, InvalidArgument>(e),
        },
{
    if value.is_empty() {
        return Ok(None);
    }
    match parse_ipv4(value) {
        Ok(octets) => Ok(Some(octets)),
        Err(e) => Err(e),
    }
}

/// The static configuration of a client: `[ip, netmask, gateway, dns, secondary dns]`, where
/// the last two may be empty.
pub open spec fn client_addresses(values: Seq<String>) -> Result<StaticAddresses, InvalidArgument> {
    if values.len() != 5 {
        Err(InvalidArgument)
    } else {
        match (
            ipv4::ipv4_address(values[0]@),
            ipv4::ipv4_address(values[1]@),
            ipv4::ipv4_address(values[2]@),
            optional_address(values[3]@),
            optional_address(values[4]@),
        ) {
            (Ok(ip), Ok(netmask), Ok(gateway), Ok(dns), Ok(secondary_dns)) => Ok(
                StaticAddresses { ip, netmask, gateway, dns, secondary_dns },
            ),
            _ => Err(InvalidArgument),
        }
    }
}

pub fn parse_static_client_settings(values: &[String]) -> (r: Result<
    StaticClientSettings,
    InvalidArgument,
>)
    ensures
        addresses_of(r) == client_addresses(values@),
{
    if values.len() != 5 {
        return Err(InvalidArgument);
    }
    let ip = parse_ipv4(values[0].as_str());
    let netmask = parse_ipv4(values[1].as_str());
    let gateway = parse_ipv4(values[2].as_str());
    let dns = parse_optional_ipv4(values[3].as_str());
    let secondary_dns = parse_optional_ipv4(values[4].as_str());
    match (ip, netmask, gateway, dns, secondary_dns) {
        (Ok(ip), Ok(netmask), Ok(gateway), Ok(dns), Ok(secondary_dns)) => Ok(
            StaticClientSettings { ip, netmask, gateway, dns, secondary_dns },
        ),
        _ => Err(InvalidArgument),
    }
}

/// The static configuration of an access point: `[ip, netmask]`; it is its own gateway.
pub open spec fn ap_addresses(values: Seq<String>) -> Result<StaticAddresses, InvalidArgument> {
    if values.len() != 2 {
        Err(InvalidArgument)
    } else {
        match (ipv4::ipv4_address(values[0]@), ipv4::ipv4_address(values[1]@)) {
            (Ok(ip), Ok(netmask)) => Ok(
                StaticAddresses { ip, netmask, gateway: ip, dns: None, secondary_dns: None },
            ),
            _ => Err(InvalidArgument),
        }
    }
}

pub fn parse_ap_static_settings(values: &[String]) -> (r: Result<
    StaticClientSettings,
    InvalidArgument,
>)
    ensures
        addresses_of(r) == ap_addresses(values@),
{
    if values.len() != 2 {
        return Err(InvalidArgument);
    }
    match (parse_ipv4(values[0].as_str()), parse_ipv4(values[1].as_str())) {
        (Ok(ip), Ok(netmask)) => Ok(
            StaticClientSettings { ip, netmask, gateway: ip, dns: None, secondary_dns: None },
        ),
        _ => Err(InvalidArgument),
    }
}

/// An address as the platform's number: the first octet is the lowest byte.
pub open spec fn esp_address(octets: Seq<u8>) -> int {
    octets[0] + 0x100 * octets[1] + 0x1_0000 * octets[2] + 0x100_0000 * octets[3]
}

pub fn ipv4_to_esp(ip: [u8; 4]) -> (addr: u32)
    ensures
        addr == esp_address(ip@),
{
    ip[0] as u32 + 0x100 * (ip[1] as u32) + 0x1_0000 * (ip[2] as u32) + 0x100_0000 * (ip[3] as u32)
}

/// A missing name server is the number 0.
pub open spec fn esp_dns(address: Option<Seq<u8>>) -> int {
    match address {
        Some(octets) => esp_address(octets),
        None => 0,
    }
}

fn dns_to_esp(address: Option<[u8; 4]>) -> (addr: u32)
    ensures
        addr == esp_dns(optional_octets(address)),
{
    match address {
        Some(octets) => ipv4_to_esp(octets),
        None => 0,
    }
}

/// One call on the interface of the network stack.
#[derive(Debug, Clone, Copy, PartialEq, Eq, Structural)]
pub enum NetifOp {
    DhcpClientStart,
    DhcpClientStop,
    DhcpServerStart,
    DhcpServerStop,
    SetIpInfo { ip: u32, netmask: u32, gateway: u32 },
    SetMainDns { addr: u32 },
    SetBackupDns { addr: u32 },
}

/// The view of a list of calls.
pub open spec fn ops_of(r: Result<Vec<NetifOp>, InvalidArgument>) -> Result<
    Seq<NetifOp>,
    InvalidArgument,
> {
    match r {
        Ok(ops) => Ok(ops@),
        Err(e) => Err(e),
    }
}

/// The call that sets the addresses of a static configuration.
pub open spec fn ip_info_op(addresses: StaticAddresses) -> NetifOp {
    NetifOp::SetIpInfo {
        ip: esp_address(addresses.ip) as u32,
        netmask: esp_address(addresses.netmask) as u32,
        gateway: esp_address(addresses.gateway) as u32,
    }
}

/// The calls that give a client its address.
pub open spec fn client_ip_ops(dhcp: bool, static_config: Option<Vec<String>>) -> Result<
    Seq<NetifOp>,
    InvalidArgument,
> {
    if dhcp {
        Ok(seq![NetifOp::DhcpClientStart])
    } else {
        match static_config {
            None => Err(InvalidArgument),
            Some(values) => match client_addresses(values@) {
                Err(e) => Err(e),
                Ok(addresses) => Ok(
                    seq![
                        NetifOp::DhcpClientStop,
                        ip_info_op(addresses),
                        NetifOp::SetMainDns { addr: esp_dns(addresses.dns) as u32 },
                        NetifOp::SetBackupDns { addr: esp_dns(addresses.secondary_dns) as u32 },
                    ],
                ),
            },
        }
    }
}

/// The calls that give a station or the Ethernet port its address.
pub fn client_ip_plan(dhcp: bool, static_config: &Option<Vec<String>>) -> (r: Result<
    Vec<NetifOp>,
    InvalidArgument,
>)
    ensures
        ops_of(r) == client_ip_ops(dhcp, *static_config),
{
    let mut ops: Vec<NetifOp> = Vec::new();
    if dhcp {
        ops.push(NetifOp::DhcpClientStart);
        assert(ops@ =~= seq![NetifOp::DhcpClientStart]);
        return Ok(ops);
    }
    let values = match static_config {
        Some(values) => values,
        None => return Err(InvalidArgument),
    };
    let settings = match parse_static_client_settings(values.as_slice()) {
        Ok(settings) => settings,
        Err(e) => return Err(e),
    };
    ops.push(NetifOp::DhcpClientStop);
    ops.push(
        NetifOp::SetIpInfo {
            ip: ipv4_to_esp(settings.ip),
            netmask: ipv4_to_esp(settings.netmask),
            gateway: ipv4_to_esp(settings.gateway),
        },
    );
    ops.push(NetifOp::SetMainDns { addr: dns_to_esp(settings.dns) });
    ops.push(NetifOp::SetBackupDns { addr: dns_to_esp(settings.secondary_dns) });
    assert(ops@ =~= seq![
        NetifOp::DhcpClientStop,
        ip_info_op(settings@),
        NetifOp::SetMainDns { addr: esp_dns(settings@.dns) as u32 },
        NetifOp::SetBackupDns { addr: esp_dns(settings@.secondary_dns) as u32 },
    ]);
    Ok(ops)
}

/// The calls that give an access point its address: its DHCP server is down meanwhile.
pub open spec fn ap_ip_ops(enabled: bool, static_config: Seq<String>) -> Result<
    Seq<NetifOp>,
    InvalidArgument,
> {
    if !enabled {
        Ok(Seq::empty())
    } else {
        match ap_addresses(static_config) {
            Err(e) => Err(e),
            Ok(addresses) => Ok(
                seq![NetifOp::DhcpServerStop, ip_info_op(addresses), NetifOp::DhcpServerStart],
            ),
        }
    }
}

/// The calls that give the access point its address.
pub fn ap_ip_plan(enabled: bool, static_config: &Vec<String>) -> (r: Result<
    Vec<NetifOp>,
    InvalidArgument,
>)
    ensures
        ops_of(r) == ap_ip_ops(enabled, static_config@),
{
    let mut ops: Vec<NetifOp> = Vec::new();
    if !enabled {
        assert(ops@ =~= Seq::empty());
        return Ok(ops);
    }
    let settings = match parse_ap_static_settings(static_config.as_slice()) {
        Ok(settings) => settings,
        Err(e) => return Err(e),
    };
    ops.push(NetifOp::DhcpServerStop);
    ops.push(
        NetifOp::SetIpInfo {
            ip: ipv4_to_esp(settings.ip),
            netmask: ipv4_to_esp(settings.netmask),
            gateway: ipv4_to_esp(settings.gateway),
        },
    );
    ops.push(NetifOp::DhcpServerStart);
    assert(ops@ =~= seq![
        NetifOp::DhcpServerStop,
        ip_info_op(settings@),
        NetifOp::DhcpServerStart,
    ]);
    Ok(ops)
}

/// Calls that are made one after another.
pub struct IpSetup {
    pub ops: Vec<NetifOp>,
    /// How many of them have been made.
    pub done: usize,
}

/// What comes next of a setup.
#[derive(Debug, Clone, Copy, PartialEq, Eq)]
pub enum IpStep {
    /// Make this call.
    Call(NetifOp),
    /// The setup is over: it succeeded, or it failed with the platform's code.
    Over(Result<(), i32>),
}

impl IpSetup {
    /// The calls that are still to be made.
    pub open spec fn rest(&self) -> Seq<NetifOp> {
        self.ops@.skip(self.done as int)
    }

    pub open spec fn wf(&self) -> bool {
        self.done <= self.ops@.len()
    }

    /// Starts a setup with the first of its calls; what is no configuration fails at once.
    pub fn start(plan: Result<Vec<NetifOp>, InvalidArgument>) -> (r: (IpSetup, IpStep))
        ensures
            r.0.wf(),
            r.1 == first_step(ops_of(plan)),
            match plan {
                Err(_) => r.0.rest().len() == 0,
                Ok(ops) => r.0.rest() == ops@,
            },
    {
        match plan {
            Err(_) => (
                IpSetup { ops: Vec::new(), done: 0 },
                IpStep::Over(Err(ESP_ERR_INVALID_ARG)),
            ),
            Ok(ops) => {
                let step = if ops.len() > 0 {
                    IpStep::Call(ops[0])
                } else {
                    IpStep::Over(Ok(()))
                };
                assert(ops@.skip(0) =~= ops@);
                (IpSetup { ops, done: 0 }, step)
            },
        }
    }

    /// Goes on after the outcome of a call. A failure ends the setup, except that a DHCP client
    /// that does not start is not a failure.
    pub fn next(&mut self, outcome: Result<(), i32>) -> (step: IpStep)
        requires
            old(self).wf(),
        ensures
            final(self).wf(),
            final(self).ops == old(self).ops,
            old(self).rest().len() == 0 ==> final(self).done == old(self).done && step
                == IpStep::Over(Ok(())),
            old(self).rest().len() > 0 ==> final(self).rest() == old(self).rest().skip(1),
            old(self).rest().len() > 0 ==> step == after_call(old(self).rest(), outcome),
    {
        if self.done >= self.ops.len() {
            return IpStep::Over(Ok(()));
        }
        let op = self.ops[self.done];
        self.done = self.done + 1;
        assert(old(self).rest()[0] == op);
        assert(self.rest() =~= old(self).rest().skip(1));
        match outcome {
            Err(code) => {
                if op != NetifOp::DhcpClientStart {
                    return IpStep::Over(Err(code));
                }
            },
            Ok(()) => {},
        }
        if self.done < self.ops.len() {
            assert(self.rest()[0] == self.ops@[self.done as int]);
            IpStep::Call(self.ops[self.done])
        } else {
            IpStep::Over(Ok(()))
        }
    }
}

/// The first call of a list, or success if there is none.
pub open spec fn first_call(ops: Seq<NetifOp>) -> IpStep {
    if ops.len() > 0 {
        IpStep::Call(ops[0])
    } else {
        IpStep::Over(Ok(()))
    }
}

/// How a setup begins; what is no configuration fails at once.
pub open spec fn first_step(plan: Result<Seq<NetifOp>, InvalidArgument>) -> IpStep {
    match plan {
        Ok(ops) => first_call(ops),
        Err(_) => IpStep::Over(Err(ESP_ERR_INVALID_ARG)),
    }
}

/// What comes after the first of the calls that are to be made.
pub open spec fn after_call(rest: Seq<NetifOp>, outcome: Result<(), i32>) -> IpStep {
    if outcome is Err && rest[0] != NetifOp::DhcpClientStart {
        IpStep::Over(outcome)
    } else {
        first_call(rest.skip(1))
    }
}

/// The outcome of making calls one after another, where `outcomes[i]` is what the `i`-th call
/// gives: the first failure that counts, or success.
pub open spec fn setup_outcome(ops: Seq<NetifOp>, outcomes: Seq<Result<(), i32>>) -> Result<(), i32>
    decreases ops.len(),
{
    if ops.len() == 0 {
        Ok(())
    } else if outcomes[0] is Err && ops[0] != NetifOp::DhcpClientStart {
        outcomes[0]
    } else {
        setup_outcome(ops.skip(1), outcomes.skip(1))
    }
}

/// A setup goes on from call to call as long as none fails, and ends with the outcome of all
/// the calls.
pub proof fn law_setup_ends_with_its_outcome(ops: Seq<NetifOp>, outcomes: Seq<Result<(), i32>>)
    requires
        ops.len() > 0,
        outcomes.len() == ops.len(),
    ensures
        match after_call(ops, outcomes[0]) {
            IpStep::Over(r) => setup_outcome(ops, outcomes) == r,
            IpStep::Call(op) => {
                &&& ops.len() > 1
                &&& op == ops[1]
                &&& setup_outcome(ops, outcomes) == setup_outcome(ops.skip(1), outcomes.skip(1))
            },
        },
{
    reveal_with_fuel(setup_outcome, 2);
}

/// DHCP always counts as set up, whatever its start gives.
pub proof fn law_dhcp_setup_succeeds(static_config: Option<Vec<String>>, outcome: Result<(), i32>)
    ensures
        client_ip_ops(true, static_config) matches Ok(ops) && setup_outcome(ops, seq![outcome]) == Ok::<
            (),
            i32,
        >(()),
{
    let ops = client_ip_ops(true, static_config)->Ok_0;
    assert(ops.skip(1) =~= Seq::empty());
    reveal_with_fuel(setup_outcome, 2);
}

/// A subnet mask with `prefix` leading ones, most significant octet first.
pub open spec fn mask_octets(prefix: u8) -> Seq<u8> {
    bytes::be32(0x1_0000_0000 - vstd::arithmetic::power2::pow2((32 - prefix) as nat))
}

/// `From<embedded_svc::ipv4::Mask>` for an address: a mask with as many leading ones as the
/// prefix says. A prefix outside 1 to 32 would overflow a shift or a subtraction.
#[verifier::external_body]
fn netmask(prefix: u8) -> (octets: [u8; 4])
    requires
        1 <= prefix <= 32,
    ensures
        octets@ == mask_octets(prefix),
{
    embedded_svc::ipv4::Ipv4Addr::from(embedded_svc::ipv4::Mask(prefix)).octets()
}

/// The addresses that an interface has got.
#[derive(Debug, Clone, Copy)]
pub struct IpInfo {
    pub ip: [u8; 4],
    pub netmask: [u8; 4],
    pub gateway: [u8; 4],
}

impl IpInfo {
    /// The addresses of an interface whose subnet is given by the length of its prefix.
    pub fn new(ip: [u8; 4], prefix: u8, gateway: [u8; 4]) -> (info: IpInfo)
        requires
            1 <= prefix <= 32,
        ensures
            info.ip == ip,
            info.netmask@ == mask_octets(prefix),
            info.gateway == gateway,
    {
        IpInfo { ip, netmask: netmask(prefix), gateway }
    }
}

} // verus!
