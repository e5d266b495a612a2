//! The clients of the access point and their addresses.

use vstd::prelude::*;

use crate::network::report::Report;

verus! {

/// A client that has an address.
#[derive(Debug, Clone, Copy)]
pub struct ApClient {
    pub mac: [u8; 6],
    pub ip: [u8; 4],
}

/// The clients that have an address.
pub struct ApClients {
    clients: Vec<ApClient>,
}

/// The addresses of the clients in a list; a later entry overrides an earlier one.
pub open spec fn address_table(clients: Seq<ApClient>) -> Map<Seq<u8>, Seq<u8>>
    decreases clients.len(),
{
    if clients.len() == 0 {
        Map::empty()
    } else {
        address_table(clients.drop_last()).insert(clients.last().mac@, clients.last().ip@)
    }
}

impl View for ApClients {
    type V = Map<Seq<u8>, Seq<u8>>;

    closed spec fn view(&self) -> Map<Seq<u8>, Seq<u8>> {
        address_table(self.clients@)
    }
}

fn same_mac(a: &[u8; 6], b: &[u8; 6]) -> (r: bool)
    ensures
        r == (a@ == b@),
{
    let r = a[0] == b[0] && a[1] == b[1] && a[2] == b[2] && a[3] == b[3] && a[4] == b[4] && a[5]
        == b[5];
    assert(r ==> a@ =~= b@);
    r
}

impl ApClients {
    pub fn new() -> (clients: ApClients)
        ensures
            clients@ == Map::<Seq<u8>, Seq<u8>>::empty(),
    {
        ApClients { clients: Vec::new() }
    }

    fn forget(&mut self, mac: [u8; 6])
        ensures
            final(self)@ == old(self)@.remove(mac@),
    {
        let mut kept: Vec<ApClient> = Vec::new();
        let mut i: usize = 0;
        assert(address_table(kept@) =~= address_table(self.clients@.take(0)).remove(mac@));
        while i < self.clients.len()
            invariant
                0 <= i <= self.clients@.len(),
                address_table(kept@) == address_table(self.clients@.take(i as int)).remove(mac@),
                self.clients@ == old(self).clients@,
            decreases self.clients@.len() - i,
        {
            let client = self.clients[i];
            let ghost before = kept@;
            let ghost seen = self.clients@.take(i as int);
            assert(self.clients@.take(i + 1) =~= seen.push(client));
            assert(seen.push(client).drop_last() =~= seen);
            if !same_mac(&client.mac, &mac) {
                kept.push(client);
                assert(kept@.drop_last() =~= before);
            }
            assert(address_table(kept@) =~= address_table(seen.push(client)).remove(mac@));
            i += 1;
        }
        assert(self.clients@.take(i as int) =~= self.clients@);
        self.clients = kept;
    }

    /// A client got an address: it is remembered and reported.
    pub fn connected(&mut self, mac: [u8; 6], ip: [u8; 4]) -> (report: Report)
        ensures
            final(self)@ == old(self)@.insert(mac@, ip@),
            report == (Report::ApClientConnected { mac, ip }),
    {
        self.forget(mac);
        let ghost others = self.clients@;
        self.clients.push(ApClient { mac, ip });
        assert(self.clients@.drop_last() =~= others);
        assert(self@ =~= old(self)@.insert(mac@, ip@));
        Report::ApClientConnected { mac, ip }
    }

    /// A client left: it is forgotten and reported.
    pub fn disconnected(&mut self, mac: [u8; 6]) -> (report: Report)
        ensures
            final(self)@ == old(self)@.remove(mac@),
            report == (Report::ApClientDisconnected { mac }),
    {
        self.forget(mac);
        Report::ApClientDisconnected { mac }
    }
}

} // verus!
