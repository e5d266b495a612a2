//! `WifiScan`: the master asks which networks are in reach, the coprocessor lists them.

use vstd::prelude::*;

use crate::master::messages::payload;
use crate::master::messages::payload::Payload;
use crate::master::protocol;
use crate::master::protocol::{encode_packet, MessageType, Packet, PacketError};
use crate::msgpack;
use crate::msgpack::TableWriter;

verus! {

#[derive(Debug, Clone, Copy)]
pub struct WifiScanRequestPayload {
    /// The most networks to list; 0 for all.
    pub limit: u16,
}

#[derive(Debug, Clone, Copy)]
pub struct WifiScanRequestMessage {
    pub limit: u16,
}

/// A network in reach.
#[derive(Debug, Clone)]
pub struct WifiScanResultItem {
    pub ssid: String,
    pub bssid: String,
    pub channel: u8,
    pub rssi: i8,
    pub auth_method: Vec<String>,
}

/// Why a request was not accepted.
#[derive(Debug, Clone, Copy, PartialEq, Eq, Structural)]
pub enum WifiScanError {
    /// The packet is of another message type.
    NotWifiScan { cmd: u8 },
    /// PARAM of a request is 0.
    ParameterNotZero(u8),
    /// The payload is no request record.
    Malformed,
}

/// The request of a packet whose payload holds `record`; no record stands for a payload that
/// is none.
pub open spec fn decoded(cmd: u8, parameter: u8, record: Option<WifiScanRequestPayload>) -> Result<
    WifiScanRequestMessage,
    WifiScanError,
> {
    if cmd != MessageType::WifiScan.code() {
        Err(WifiScanError::NotWifiScan { cmd })
    } else if parameter != 0 {
        Err(WifiScanError::ParameterNotZero(parameter))
    } else {
        match record {
            Some(request) => Ok(WifiScanRequestMessage { limit: request.limit }),
            None => Err(WifiScanError::Malformed),
        }
    }
}

/// The request of a packet whose payload was read as `record`.
pub fn decode(packet: &Packet<'_>, record: Option<WifiScanRequestPayload>) -> (r: Result<
    WifiScanRequestMessage,
    WifiScanError,
>)
    ensures
        r == decoded(packet.cmd, packet.parameter, record),
{
    if packet.cmd != MessageType::WifiScan.as_u8() {
        return Err(WifiScanError::NotWifiScan { cmd: packet.cmd });
    }
    if packet.parameter != 0 {
        return Err(WifiScanError::ParameterNotZero(packet.parameter));
    }
    match record {
        Some(request) => Ok(WifiScanRequestMessage { limit: request.limit }),
        None => Err(WifiScanError::Malformed),
    }
}

impl Payload for WifiScanResultItem {
    open spec fn value(&self) -> msgpack::Value {
        msgpack::Value::Table(
            seq![
                ("ssid"@, msgpack::Value::Str(self.ssid@)),
                ("bssid"@, msgpack::Value::Str(self.bssid@)),
                ("channel"@, msgpack::Value::Int(self.channel as int)),
                ("rssi"@, msgpack::Value::Int(self.rssi as int)),
                ("authMethod"@, msgpack::texts_value(self.auth_method@)),
            ],
        )
    }

    fn to_bytes(&self) -> (bytes: Vec<u8>) {
        let mut w = TableWriter::new();
        w.str_entry("ssid", self.ssid.as_str());
        w.str_entry("bssid", self.bssid.as_str());
        w.int_entry("channel", self.channel as i64);
        w.int_entry("rssi", self.rssi as i64);
        w.strs_entry("authMethod", self.auth_method.as_slice());
        assert(w.entries() =~= self.value()->Table_0);
        w.finish()
    }
}

/// The payload that lists `items`.
pub open spec fn list_payload(items: Seq<msgpack::Value>) -> Seq<u8> {
    msgpack::encode(msgpack::Value::Array(items))
}

/// The frame of one chunk of a response.
pub open spec fn chunk_frame(chunk_index: u8, items: Seq<msgpack::Value>) -> Result<
    Seq<u8>,
    PacketError,
> {
    protocol::packet_frame(MessageType::WifiScan.code(), chunk_index, list_payload(items))
}

/// The frame of one chunk of a response, if the chunk fits a frame.
pub fn encode(chunk_index: u8, items: &[WifiScanResultItem]) -> (r: Result<Vec<u8>, PacketError>)
    ensures
        protocol::bytes_of(r) == chunk_frame(chunk_index, payload::values(items@)),
{
    let payload = payload::list_to_bytes(items);
    encode_packet(MessageType::WifiScan.as_u8(), chunk_index, payload.as_slice())
}

} // verus!
