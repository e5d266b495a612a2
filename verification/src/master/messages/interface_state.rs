//! `InterfaceState`: what happens on the network interfaces.

use vstd::prelude::*;

use crate::master::messages::interface_settings::InterfaceType;
use crate::master::messages::payload::Payload;
use crate::master::protocol;
use crate::master::protocol::{encode_packet, MessageType, PacketError};
use crate::msgpack;
use crate::msgpack::TableWriter;

verus! {

/// The link is there; the interface has this address.
#[derive(Debug, Clone)]
pub struct ConnectedPayload {
    pub connected: bool,
    pub mac: String,
}

impl Payload for ConnectedPayload {
    open spec fn value(&self) -> msgpack::Value {
        msgpack::Value::Table(
            seq![
                ("connected"@, msgpack::Value::Bool(self.connected)),
                ("mac"@, msgpack::Value::Str(self.mac@)),
            ],
        )
    }

    fn to_bytes(&self) -> (bytes: Vec<u8>) {
        let mut w = TableWriter::new();
        w.bool_entry("connected", self.connected);
        w.str_entry("mac", self.mac.as_str());
        assert(w.entries() =~= self.value()->Table_0);
        w.finish()
    }
}

/// The interface could not be brought up.
#[derive(Debug, Clone)]
pub struct ConnectErrorPayload {
    pub connect_error: i32,
}

impl Payload for ConnectErrorPayload {
    open spec fn value(&self) -> msgpack::Value {
        msgpack::Value::Table(
            seq![
                ("error"@, msgpack::Value::Int(self.connect_error as int)),
            ],
        )
    }

    fn to_bytes(&self) -> (bytes: Vec<u8>) {
        let mut w = TableWriter::new();
        w.int_entry("error", self.connect_error as i64);
        assert(w.entries() =~= self.value()->Table_0);
        w.finish()
    }
}

/// The interface has an address: address, netmask and gateway.
#[derive(Debug, Clone)]
pub struct GotIpPayload {
    pub ip_config: [String; 3],
}

impl Payload for GotIpPayload {
    open spec fn value(&self) -> msgpack::Value {
        msgpack::Value::Table(
            seq![
                ("ip"@, msgpack::texts_value(self.ip_config@)),
            ],
        )
    }

    fn to_bytes(&self) -> (bytes: Vec<u8>) {
        let mut w = TableWriter::new();
        w.strs_entry("ip", vstd::array::array_as_slice(&self.ip_config));
        assert(w.entries() =~= self.value()->Table_0);
        w.finish()
    }
}

/// Signal strength of the station's network.
#[derive(Debug, Clone)]
pub struct RssiPayload {
    pub rssi: i32,
}

impl Payload for RssiPayload {
    open spec fn value(&self) -> msgpack::Value {
        msgpack::Value::Table(
            seq![
                ("rssi"@, msgpack::Value::Int(self.rssi as int)),
            ],
        )
    }

    fn to_bytes(&self) -> (bytes: Vec<u8>) {
        let mut w = TableWriter::new();
        w.int_entry("rssi", self.rssi as i64);
        assert(w.entries() =~= self.value()->Table_0);
        w.finish()
    }
}

/// The link is gone.
#[derive(Debug, Clone)]
pub struct DisconnectedPayload {
    pub connected: bool,
    pub disconnect_reason: i32,
}

impl Payload for DisconnectedPayload {
    open spec fn value(&self) -> msgpack::Value {
        msgpack::Value::Table(
            seq![
                ("connected"@, msgpack::Value::Bool(self.connected)),
                ("reason"@, msgpack::Value::Int(self.disconnect_reason as int)),
            ],
        )
    }

    fn to_bytes(&self) -> (bytes: Vec<u8>) {
        let mut w = TableWriter::new();
        w.bool_entry("connected", self.connected);
        w.int_entry("reason", self.disconnect_reason as i64);
        assert(w.entries() =~= self.value()->Table_0);
        w.finish()
    }
}

/// The access point runs.
#[derive(Debug, Clone)]
pub struct ApStartedPayload {
    pub started: bool,
}

impl Payload for ApStartedPayload {
    open spec fn value(&self) -> msgpack::Value {
        msgpack::Value::Table(
            seq![
                ("started"@, msgpack::Value::Bool(self.started)),
            ],
        )
    }

    fn to_bytes(&self) -> (bytes: Vec<u8>) {
        let mut w = TableWriter::new();
        w.bool_entry("started", self.started);
        assert(w.entries() =~= self.value()->Table_0);
        w.finish()
    }
}

/// The access point could not be started.
#[derive(Debug, Clone)]
pub struct ApStartErrorPayload {
    pub started: bool,
    pub error: i32,
}

impl Payload for ApStartErrorPayload {
    open spec fn value(&self) -> msgpack::Value {
        msgpack::Value::Table(
            seq![
                ("started"@, msgpack::Value::Bool(self.started)),
                ("error"@, msgpack::Value::Int(self.error as int)),
            ],
        )
    }

    fn to_bytes(&self) -> (bytes: Vec<u8>) {
        let mut w = TableWriter::new();
        w.bool_entry("started", self.started);
        w.int_entry("error", self.error as i64);
        assert(w.entries() =~= self.value()->Table_0);
        w.finish()
    }
}

/// A client of the access point got an address.
#[derive(Debug, Clone)]
pub struct ApClientConnectedPayload {
    pub client_connected: bool,
    pub mac: String,
    pub ip: String,
}

impl Payload for ApClientConnectedPayload {
    open spec fn value(&self) -> msgpack::Value {
        msgpack::Value::Table(
            seq![
                ("clientConnected"@, msgpack::Value::Bool(self.client_connected)),
                ("mac"@, msgpack::Value::Str(self.mac@)),
                ("ip"@, msgpack::Value::Str(self.ip@)),
            ],
        )
    }

    fn to_bytes(&self) -> (bytes: Vec<u8>) {
        let mut w = TableWriter::new();
        w.bool_entry("clientConnected", self.client_connected);
        w.str_entry("mac", self.mac.as_str());
        w.str_entry("ip", self.ip.as_str());
        assert(w.entries() =~= self.value()->Table_0);
        w.finish()
    }
}

/// A client of the access point left.
#[derive(Debug, Clone)]
pub struct ApClientDisconnectedPayload {
    pub client_connected: bool,
    pub mac: String,
}

impl Payload for ApClientDisconnectedPayload {
    open spec fn value(&self) -> msgpack::Value {
        msgpack::Value::Table(
            seq![
                ("clientConnected"@, msgpack::Value::Bool(self.client_connected)),
                ("mac"@, msgpack::Value::Str(self.mac@)),
            ],
        )
    }

    fn to_bytes(&self) -> (bytes: Vec<u8>) {
        let mut w = TableWriter::new();
        w.bool_entry("clientConnected", self.client_connected);
        w.str_entry("mac", self.mac.as_str());
        assert(w.entries() =~= self.value()->Table_0);
        w.finish()
    }
}

/// The frame that reports a record of an interface.
pub open spec fn state_frame(interface: InterfaceType, value: msgpack::Value) -> Result<
    Seq<u8>,
    PacketError,
> {
    protocol::packet_frame(
        MessageType::InterfaceState.code(),
        interface.code(),
        msgpack::encode(value),
    )
}

/// The frame that reports `payload` of an interface.
pub fn encode_payload<T: Payload>(interface: InterfaceType, payload: &T) -> (r: Result<
    Vec<u8>,
    PacketError,
>)
    ensures
        protocol::bytes_of(r) == state_frame(interface, payload.value()),
{
    let bytes = payload.to_bytes();
    encode_packet(MessageType::InterfaceState.as_u8(), interface.as_u8(), bytes.as_slice())
}

pub fn encode_connected(interface: InterfaceType, mac: String) -> (r: Result<Vec<u8>, PacketError>)
    ensures
        protocol::bytes_of(r) == state_frame(interface, (ConnectedPayload { connected: true, mac }).value()),
{
    encode_payload(interface, &ConnectedPayload { connected: true, mac })
}

pub fn encode_connect_error(interface: InterfaceType, connect_error: i32) -> (r: Result<Vec<u8>, PacketError>)
    ensures
        protocol::bytes_of(r) == state_frame(interface, (ConnectErrorPayload { connect_error }).value()),
{
    encode_payload(interface, &ConnectErrorPayload { connect_error })
}

pub fn encode_got_ip(interface: InterfaceType, ip_config: [String; 3]) -> (r: Result<Vec<u8>, PacketError>)
    ensures
        protocol::bytes_of(r) == state_frame(interface, (GotIpPayload { ip_config }).value()),
{
    encode_payload(interface, &GotIpPayload { ip_config })
}

pub fn encode_rssi(interface: InterfaceType, rssi: i32) -> (r: Result<Vec<u8>, PacketError>)
    ensures
        protocol::bytes_of(r) == state_frame(interface, (RssiPayload { rssi }).value()),
{
    encode_payload(interface, &RssiPayload { rssi })
}

pub fn encode_disconnected(interface: InterfaceType, disconnect_reason: i32) -> (r: Result<Vec<u8>, PacketError>)
    ensures
        protocol::bytes_of(r) == state_frame(interface, (DisconnectedPayload { connected: false, disconnect_reason }).value()),
{
    encode_payload(interface, &DisconnectedPayload { connected: false, disconnect_reason })
}

pub fn encode_ap_started(interface: InterfaceType) -> (r: Result<Vec<u8>, PacketError>)
    ensures
        protocol::bytes_of(r) == state_frame(interface, (ApStartedPayload { started: true }).value()),
{
    encode_payload(interface, &ApStartedPayload { started: true })
}

pub fn encode_ap_start_error(interface: InterfaceType, error: i32) -> (r: Result<Vec<u8>, PacketError>)
    ensures
        protocol::bytes_of(r) == state_frame(interface, (ApStartErrorPayload { started: false, error }).value()),
{
    encode_payload(interface, &ApStartErrorPayload { started: false, error })
}

pub fn encode_ap_client_connected(interface: InterfaceType, mac: String, ip: String) -> (r: Result<Vec<u8>, PacketError>)
    ensures
        protocol::bytes_of(r) == state_frame(interface, (ApClientConnectedPayload { client_connected: true, mac, ip }).value()),
{
    encode_payload(interface, &ApClientConnectedPayload { client_connected: true, mac, ip })
}

pub fn encode_ap_client_disconnected(interface: InterfaceType, mac: String) -> (r: Result<Vec<u8>, PacketError>)
    ensures
        protocol::bytes_of(r) == state_frame(interface, (ApClientDisconnectedPayload { client_connected: false, mac }).value()),
{
    encode_payload(interface, &ApClientDisconnectedPayload { client_connected: false, mac })
}

} // verus!
