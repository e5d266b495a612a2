//! What the calls that give an interface its address set, in terms of the texts of its settings.

use vstd::prelude::*;

use crate::bytes;
use crate::network::addressing;
use crate::network::addressing::{IpStep, NetifOp};
use crate::network::ipv4;
use crate::network::ipv4::InvalidArgument;
use crate::text_laws;

verus! {

/// A text is the dotted decimal form of some address.
pub open spec fn address_text(t: Seq<char>) -> bool {
    exists|octets: Seq<u8>| octets.len() == 4 && t == #[trigger] ipv4::ipv4_text(octets)
}

/// A text is the dotted decimal form of this address, or empty where there is none.
pub open spec fn optional_text(t: Seq<char>, octets: Option<Seq<u8>>) -> bool {
    match octets {
        Some(octets) => octets.len() == 4 && t == ipv4::ipv4_text(octets),
        None => t.len() == 0,
    }
}

/// The number of an address that may be missing: 0 where it is, else the first octet is the
/// lowest byte.
pub open spec fn number(octets: Option<Seq<u8>>) -> int {
    match octets {
        Some(o) => o[0] + 256 * o[1] + 65_536 * o[2] + 16_777_216 * o[3],
        None => 0,
    }
}

proof fn lemma_text_is_not_empty(octets: Seq<u8>)
    ensures
        ipv4::ipv4_text(octets).len() > 0,
{
}

/// A static configuration written in dotted decimal sets each address where it belongs: the
/// first three texts are the address, the subnet mask and the gateway, the fourth is the main
/// name server and the fifth the backup name server. A name server is 0 only where its text is
/// empty. The DHCP client is stopped before.
pub proof fn law_static_texts_are_set(
    values: Vec<String>,
    ip: Seq<u8>,
    netmask: Seq<u8>,
    gateway: Seq<u8>,
    dns: Option<Seq<u8>>,
    backup: Option<Seq<u8>>,
)
    requires
        values@.len() == 5,
        ip.len() == 4,
        netmask.len() == 4,
        gateway.len() == 4,
        values@[0]@ == ipv4::ipv4_text(ip),
        values@[1]@ == ipv4::ipv4_text(netmask),
        values@[2]@ == ipv4::ipv4_text(gateway),
        optional_text(values@[3]@, dns),
        optional_text(values@[4]@, backup),
    ensures
        ({
            let planned = addressing::client_ip_ops(false, Some(values));
            let ops = planned->Ok_0;
            &&& planned is Ok
            &&& ops.len() == 4
            &&& ops[0] == NetifOp::DhcpClientStop
            &&& ops[1] matches NetifOp::SetIpInfo { ip: a, netmask: m, gateway: g } && a == number(
                Some(ip),
            ) && m == number(Some(netmask)) && g == number(Some(gateway))
            &&& ops[2] matches NetifOp::SetMainDns { addr } && addr == number(dns)
            &&& ops[3] matches NetifOp::SetBackupDns { addr } && addr == number(backup)
        }),
{
    ipv4::law_ipv4_reads_back(ip);
    ipv4::law_ipv4_reads_back(netmask);
    ipv4::law_ipv4_reads_back(gateway);
    if dns is Some {
        ipv4::law_ipv4_reads_back(dns->0);
        lemma_text_is_not_empty(dns->0);
    }
    if backup is Some {
        ipv4::law_ipv4_reads_back(backup->0);
        lemma_text_is_not_empty(backup->0);
    }
}

/// What a configuration was parsed into says what its texts were: each of them is the form of
/// the address in its place, so configurations with different texts are parsed differently.
pub proof fn law_static_texts_are_kept(values: Seq<String>)
    ensures
        addressing::client_addresses(values) matches Ok(a) ==> {
            &&& values.len() == 5
            &&& values[0]@ == ipv4::ipv4_text(a.ip)
            &&& values[1]@ == ipv4::ipv4_text(a.netmask)
            &&& values[2]@ == ipv4::ipv4_text(a.gateway)
            &&& optional_text(values[3]@, a.dns)
            &&& optional_text(values[4]@, a.secondary_dns)
        },
        addressing::ap_addresses(values) matches Ok(a) ==> {
            &&& values.len() == 2
            &&& values[0]@ == ipv4::ipv4_text(a.ip)
            &&& values[1]@ == ipv4::ipv4_text(a.netmask)
            &&& a.gateway == a.ip
            &&& a.dns is None
            &&& a.secondary_dns is None
        },
{
    if values.len() == 5 {
        ipv4::law_ipv4_text_is_canonical(values[0]@);
        ipv4::law_ipv4_text_is_canonical(values[1]@);
        ipv4::law_ipv4_text_is_canonical(values[2]@);
        ipv4::law_ipv4_text_is_canonical(values[3]@);
        ipv4::law_ipv4_text_is_canonical(values[4]@);
    }
    if values.len() == 2 {
        ipv4::law_ipv4_text_is_canonical(values[0]@);
        ipv4::law_ipv4_text_is_canonical(values[1]@);
    }
}

/// A static configuration is refused only where it is no list of five texts, where one of the
/// first three is no address, or where one of the last two is neither an address nor empty.
pub proof fn law_static_texts_are_refused(static_config: Option<Vec<String>>)
    ensures
        addressing::client_ip_ops(false, static_config) is Ok <==> (static_config matches Some(values)
            && values@.len() == 5 && address_text(values@[0]@) && address_text(values@[1]@)
            && address_text(values@[2]@) && (values@[3]@.len() == 0 || address_text(values@[3]@)) && (
        values@[4]@.len() == 0 || address_text(values@[4]@))),
{
}

/// With DHCP the client is started, whatever the static configuration says.
pub proof fn law_dhcp_starts_the_client(static_config: Option<Vec<String>>)
    ensures
        addressing::client_ip_ops(true, static_config) matches Ok(ops) && ops.len() == 1 && ops[0]
            == NetifOp::DhcpClientStart,
{
}

/// An enabled access point is given the address and the subnet mask of its two texts, and is its
/// own gateway; its DHCP server is stopped before and started after.
pub proof fn law_ap_texts_are_set(values: Seq<String>, ip: Seq<u8>, netmask: Seq<u8>)
    requires
        values.len() == 2,
        ip.len() == 4,
        netmask.len() == 4,
        values[0]@ == ipv4::ipv4_text(ip),
        values[1]@ == ipv4::ipv4_text(netmask),
    ensures
        ({
            let planned = addressing::ap_ip_ops(true, values);
            let ops = planned->Ok_0;
            &&& planned is Ok
            &&& ops.len() == 3
            &&& ops[0] == NetifOp::DhcpServerStop
            &&& ops[1] matches NetifOp::SetIpInfo { ip: a, netmask: m, gateway: g } && a == number(
                Some(ip),
            ) && m == number(Some(netmask)) && g == number(Some(ip))
            &&& ops[2] == NetifOp::DhcpServerStart
        }),
{
    ipv4::law_ipv4_reads_back(ip);
    ipv4::law_ipv4_reads_back(netmask);
}

/// The configuration of an enabled access point is refused only where it is not two addresses;
/// one that is not enabled needs no call.
pub proof fn law_ap_texts_are_refused(values: Seq<String>)
    ensures
        addressing::ap_ip_ops(true, values) is Ok <==> values.len() == 2 && address_text(values[0]@)
            && address_text(values[1]@),
        addressing::ap_ip_ops(false, values) matches Ok(ops) && ops.len() == 0,
{
}

/// What is no configuration fails with the code 0x102, without a call. The calls of a setup are
/// made in order. A call that fails ends the setup with its code, unless
/// it started a DHCP client; after the last the setup has succeeded.
pub proof fn law_calls_are_made_in_order(rest: Seq<NetifOp>, outcome: Result<(), i32>)
    ensures
        addressing::first_step(Err(InvalidArgument)) == IpStep::Over(Err(0x102)),
        rest.len() == 0 ==> addressing::first_step(Ok(rest)) == IpStep::Over(Ok(())),
        rest.len() > 0 ==> addressing::first_step(Ok(rest)) == IpStep::Call(rest[0]),
        rest.len() > 0 ==> match addressing::after_call(rest, outcome) {
            IpStep::Call(op) => rest.len() > 1 && op == rest[1] && (outcome is Ok || rest[0]
                == NetifOp::DhcpClientStart),
            IpStep::Over(Ok(_)) => rest.len() == 1 && (outcome is Ok || rest[0]
                == NetifOp::DhcpClientStart),
            IpStep::Over(Err(code)) => outcome == Err::<(), i32>(code) && rest[0]
                != NetifOp::DhcpClientStart,
        },
{
}

/// The outcome of a call is a failure that ends a setup: any but that of starting a DHCP client.
pub open spec fn ends_setup(op: NetifOp, outcome: Result<(), i32>) -> bool {
    outcome is Err && op != NetifOp::DhcpClientStart
}

/// A setup of which no call ends it has succeeded.
pub proof fn law_setup_succeeds(ops: Seq<NetifOp>, outcomes: Seq<Result<(), i32>>)
    requires
        outcomes.len() == ops.len(),
        forall|i: int| 0 <= i < ops.len() ==> !ends_setup(ops[i], #[trigger] outcomes[i]),
    ensures
        addressing::setup_outcome(ops, outcomes) == Ok::<(), i32>(()),
    decreases ops.len(),
{
    if ops.len() > 0 {
        let rest = ops.skip(1);
        let later = outcomes.skip(1);
        assert(!ends_setup(ops[0], outcomes[0]));
        assert forall|i: int| 0 <= i < rest.len() implies !ends_setup(
            rest[i],
            #[trigger] later[i],
        ) by {
            assert(rest[i] == ops[i + 1] && later[i] == outcomes[i + 1]);
        }
        law_setup_succeeds(rest, later);
    }
}

/// A setup fails as the first of its calls does that ends it.
pub proof fn law_setup_fails_with_the_first_failure(
    ops: Seq<NetifOp>,
    outcomes: Seq<Result<(), i32>>,
    first: int,
)
    requires
        outcomes.len() == ops.len(),
        0 <= first < ops.len(),
        ends_setup(ops[first], outcomes[first]),
        forall|i: int| 0 <= i < first ==> !ends_setup(ops[i], #[trigger] outcomes[i]),
    ensures
        addressing::setup_outcome(ops, outcomes) == outcomes[first],
    decreases ops.len(),
{
    if first > 0 {
        let rest = ops.skip(1);
        let later = outcomes.skip(1);
        assert(!ends_setup(ops[0], outcomes[0]));
        assert forall|i: int| 0 <= i < first - 1 implies !ends_setup(
            rest[i],
            #[trigger] later[i],
        ) by {
            assert(rest[i] == ops[i + 1] && later[i] == outcomes[i + 1]);
        }
        assert(rest[first - 1] == ops[first] && later[first - 1] == outcomes[first]);
        law_setup_fails_with_the_first_failure(rest, later, first - 1);
    }
}

/// A subnet mask is the number whose leading ones are as many as its prefix says.
pub proof fn law_mask_has_leading_ones(prefix: u8)
    requires
        1 <= prefix <= 32,
    ensures
        ({
            let o = addressing::mask_octets(prefix);
            &&& o.len() == 4
            &&& 0x100_0000 * o[0] + 0x1_0000 * o[1] + 0x100 * o[2] + o[3]
                + vstd::arithmetic::power2::pow2((32 - prefix) as nat) == 0x1_0000_0000
        }),
{
    let free = vstd::arithmetic::power2::pow2((32 - prefix) as nat) as int;
    vstd::arithmetic::power2::lemma2_to64();
    if prefix > 1 {
        vstd::arithmetic::power2::lemma_pow2_strictly_increases((32 - prefix) as nat, 31);
    }
    vstd::arithmetic::power2::lemma_pow2_pos((32 - prefix) as nat);
    text_laws::law_bytes_say_their_number(0x1_0000_0000 - free);
}

} // verus!
