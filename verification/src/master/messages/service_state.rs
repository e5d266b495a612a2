//! `ServiceState`: what happens in the network services.

use vstd::prelude::*;

use crate::master::messages::payload::Payload;
use crate::master::messages::service_settings::ServiceType;
use crate::master::protocol;
use crate::master::protocol::{encode_packet, MessageType, PacketError};
use crate::msgpack;
use crate::msgpack::TableWriter;

verus! {

/// Why a slot of the TCP server has no client.
#[derive(Debug, Clone, Copy, PartialEq, Eq, Structural)]
pub enum TcpDisconnectReason {
    Undefined,
    ClientClosedConnection,
    ServerClosedConnection,
    InactivityTimeout,
    NotConnected,
}

impl TcpDisconnectReason {
    /// The number of the reason on the wire.
    pub open spec fn code(self) -> u8 {
        match self {
            TcpDisconnectReason::Undefined => 0,
            TcpDisconnectReason::ClientClosedConnection => 1,
            TcpDisconnectReason::ServerClosedConnection => 2,
            TcpDisconnectReason::InactivityTimeout => 3,
            TcpDisconnectReason::NotConnected => 4,
        }
    }

    pub fn as_u8(self) -> (code: u8)
        ensures
            code == self.code(),
    {
        match self {
            TcpDisconnectReason::Undefined => 0,
            TcpDisconnectReason::ClientClosedConnection => 1,
            TcpDisconnectReason::ServerClosedConnection => 2,
            TcpDisconnectReason::InactivityTimeout => 3,
            TcpDisconnectReason::NotConnected => 4,
        }
    }
}

/// Two reasons never share a number.
pub proof fn law_disconnect_reasons_are_told_apart(a: TcpDisconnectReason, b: TcpDisconnectReason)
    requires
        a.code() == b.code(),
    ensures
        a == b,
{
}

/// A client took a slot.
#[derive(Debug, Clone)]
pub struct TcpConnectedPayload {
    pub connected: bool,
    pub index: u8,
    pub remote_ip: String,
    pub remote_port: u16,
}

impl Payload for TcpConnectedPayload {
    open spec fn value(&self) -> msgpack::Value {
        msgpack::Value::Table(
            seq![
                ("connected"@, msgpack::Value::Bool(self.connected)),
                ("index"@, msgpack::Value::Int(self.index as int)),
                ("remoteIp"@, msgpack::Value::Str(self.remote_ip@)),
                ("remotePort"@, msgpack::Value::Int(self.remote_port as int)),
            ],
        )
    }

    fn to_bytes(&self) -> (bytes: Vec<u8>) {
        let mut w = TableWriter::new();
        w.bool_entry("connected", self.connected);
        w.int_entry("index", self.index as i64);
        w.str_entry("remoteIp", self.remote_ip.as_str());
        w.int_entry("remotePort", self.remote_port as i64);
        assert(w.entries() =~= self.value()->Table_0);
        w.finish()
    }
}

/// A slot has no client any more, or had none.
#[derive(Debug, Clone)]
pub struct TcpDisconnectedPayload {
    pub connected: bool,
    pub index: u8,
    pub reason: u8,
}

impl Payload for TcpDisconnectedPayload {
    open spec fn value(&self) -> msgpack::Value {
        msgpack::Value::Table(
            seq![
                ("connected"@, msgpack::Value::Bool(self.connected)),
                ("index"@, msgpack::Value::Int(self.index as int)),
                ("reason"@, msgpack::Value::Int(self.reason as int)),
            ],
        )
    }

    fn to_bytes(&self) -> (bytes: Vec<u8>) {
        let mut w = TableWriter::new();
        w.bool_entry("connected", self.connected);
        w.int_entry("index", self.index as i64);
        w.int_entry("reason", self.reason as i64);
        assert(w.entries() =~= self.value()->Table_0);
        w.finish()
    }
}

/// A time server answered.
#[derive(Debug, Clone)]
pub struct NtpSyncedPayload {
    pub stratum: u8,
    pub timet: i64,
    pub server: String,
}

impl Payload for NtpSyncedPayload {
    open spec fn value(&self) -> msgpack::Value {
        msgpack::Value::Table(
            seq![
                ("stratum"@, msgpack::Value::Int(self.stratum as int)),
                ("timet"@, msgpack::Value::Int(self.timet as int)),
                ("server"@, msgpack::Value::Str(self.server@)),
            ],
        )
    }

    fn to_bytes(&self) -> (bytes: Vec<u8>) {
        let mut w = TableWriter::new();
        w.int_entry("stratum", self.stratum as i64);
        w.int_entry("timet", self.timet);
        w.str_entry("server", self.server.as_str());
        assert(w.entries() =~= self.value()->Table_0);
        w.finish()
    }
}

/// A time server did not answer as it should.
#[derive(Debug, Clone)]
pub struct NtpErrorPayload {
    pub error: i32,
    pub server: String,
}

impl Payload for NtpErrorPayload {
    open spec fn value(&self) -> msgpack::Value {
        msgpack::Value::Table(
            seq![
                ("error"@, msgpack::Value::Int(self.error as int)),
                ("server"@, msgpack::Value::Str(self.server@)),
            ],
        )
    }

    fn to_bytes(&self) -> (bytes: Vec<u8>) {
        let mut w = TableWriter::new();
        w.int_entry("error", self.error as i64);
        w.str_entry("server", self.server.as_str());
        assert(w.entries() =~= self.value()->Table_0);
        w.finish()
    }
}

/// The frame that reports a record of a service.
pub open spec fn state_frame(service: ServiceType, value: msgpack::Value) -> Result<
    Seq<u8>,
    PacketError,
> {
    protocol::packet_frame(
        MessageType::ServiceState.code(),
        service.code(),
        msgpack::encode(value),
    )
}

fn encode_payload<T: Payload>(service: ServiceType, payload: &T) -> (r: Result<
    Vec<u8>,
    PacketError,
>)
    ensures
        protocol::bytes_of(r) == state_frame(service, payload.value()),
{
    let bytes = payload.to_bytes();
    encode_packet(MessageType::ServiceState.as_u8(), service.as_u8(), bytes.as_slice())
}

pub fn encode_tcp_connected(index: u8, remote_ip: String, remote_port: u16) -> (r: Result<Vec<u8>, PacketError>)
    ensures
        protocol::bytes_of(r) == state_frame(
            ServiceType::TcpServer,
            (TcpConnectedPayload { connected: true, index, remote_ip, remote_port }).value(),
        ),
{
    encode_payload(
        ServiceType::TcpServer,
        &TcpConnectedPayload { connected: true, index, remote_ip, remote_port },
    )
}

pub fn encode_tcp_disconnected(index: u8, reason: TcpDisconnectReason) -> (r: Result<Vec<u8>, PacketError>)
    ensures
        protocol::bytes_of(r) == state_frame(
            ServiceType::TcpServer,
            (TcpDisconnectedPayload { connected: false, index, reason: reason.code() }).value(),
        ),
{
    encode_payload(
        ServiceType::TcpServer,
        &TcpDisconnectedPayload { connected: false, index, reason: reason.as_u8() },
    )
}

pub fn encode_ntp_synced(stratum: u8, timet: i64, server: String) -> (r: Result<Vec<u8>, PacketError>)
    ensures
        protocol::bytes_of(r) == state_frame(
            ServiceType::NtpClient,
            (NtpSyncedPayload { stratum, timet, server }).value(),
        ),
{
    encode_payload(
        ServiceType::NtpClient,
        &NtpSyncedPayload { stratum, timet, server },
    )
}

pub fn encode_ntp_error(error: i32, server: String) -> (r: Result<Vec<u8>, PacketError>)
    ensures
        protocol::bytes_of(r) == state_frame(
            ServiceType::NtpClient,
            (NtpErrorPayload { error, server }).value(),
        ),
{
    encode_payload(
        ServiceType::NtpClient,
        &NtpErrorPayload { error, server },
    )
}

} // verus!
