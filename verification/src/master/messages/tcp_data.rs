//! `TcpData`: bytes of a TCP connection, in either direction.

use vstd::prelude::*;
use vstd::slice::slice_to_vec;

use crate::master::protocol;
use crate::master::protocol::{encode_packet, MessageType, Packet, PacketError};

verus! {

#[derive(Debug, Clone)]
pub struct TcpDataMessage {
    pub index: u8,
    pub payload: Vec<u8>,
}

/// Why data was not accepted.
#[derive(Debug, Clone, Copy, PartialEq, Eq, Structural)]
pub enum TcpDataError {
    /// The packet is of another message type.
    NotTcpData { cmd: u8 },
    /// No slot has this index.
    IndexOutOfRange(u8),
    /// The data does not fit a frame.
    Packet(PacketError),
}

/// The frame that carries `payload` for a slot.
pub open spec fn data_frame(index: u8, payload: Seq<u8>) -> Result<Seq<u8>, TcpDataError> {
    if index > 3 {
        Err(TcpDataError::IndexOutOfRange(index))
    } else {
        match protocol::packet_frame(MessageType::TcpData.code(), index, payload) {
            Ok(frame) => Ok(frame),
            Err(e) => Err(TcpDataError::Packet(e)),
        }
    }
}

pub fn encode(index: u8, payload: &[u8]) -> (r: Result<Vec<u8>, TcpDataError>)
    ensures
        protocol::bytes_of(r) == data_frame(index, payload@),
{
    if index > 3 {
        return Err(TcpDataError::IndexOutOfRange(index));
    }
    match encode_packet(MessageType::TcpData.as_u8(), index, payload) {
        Ok(frame) => Ok(frame),
        Err(e) => Err(TcpDataError::Packet(e)),
    }
}

/// The slot and the bytes that a packet carries.
pub open spec fn decoded(content: protocol::Content) -> Result<(u8, Seq<u8>), TcpDataError> {
    if content.cmd != MessageType::TcpData.code() {
        Err(TcpDataError::NotTcpData { cmd: content.cmd })
    } else if content.parameter > 3 {
        Err(TcpDataError::IndexOutOfRange(content.parameter))
    } else {
        Ok((content.parameter, content.payload))
    }
}

/// The view of decoded data.
pub open spec fn data_of(r: Result<TcpDataMessage, TcpDataError>) -> Result<
    (u8, Seq<u8>),
    TcpDataError,
> {
    match r {
        Ok(message) => Ok((message.index, message.payload@)),
        Err(e) => Err(e),
    }
}

pub fn decode(packet: &Packet<'_>) -> (r: Result<TcpDataMessage, TcpDataError>)
    ensures
        data_of(r) == decoded(packet@),
{
    if packet.cmd != MessageType::TcpData.as_u8() {
        return Err(TcpDataError::NotTcpData { cmd: packet.cmd });
    }
    if packet.parameter > 3 {
        return Err(TcpDataError::IndexOutOfRange(packet.parameter));
    }
    Ok(TcpDataMessage { index: packet.parameter, payload: slice_to_vec(packet.payload) })
}

/// Data that was framed is read back: the same bytes for the same slot.
pub proof fn law_data_reads_back(index: u8, payload: Seq<u8>)
    ensures
        data_frame(index, payload) matches Ok(frame) ==> {
            &&& protocol::frame_content(frame) matches Ok(content)
            &&& decoded(content) == Ok::<(u8, Seq<u8>), TcpDataError>((index, payload))
        },
{
    if index <= 3 && payload.len() <= protocol::MAX_PAYLOAD_SIZE {
        crate::master::protocol_laws::law_frame_reads_back(
            MessageType::TcpData.code(),
            index,
            payload,
        );
    }
}

} // verus!
