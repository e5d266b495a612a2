//! `TcpCommand`: what the master asks of a client slot of the TCP server.

use vstd::prelude::*;

use crate::master::protocol::{MessageType, Packet};

verus! {

#[derive(Debug, Clone, Copy)]
pub struct TcpCommandPayload {
    /// Whether the connection is to be closed.
    pub close: bool,
}

#[derive(Debug, Clone, Copy)]
pub struct TcpCommandMessage {
    pub index: u8,
    pub command: TcpCommandPayload,
}

/// Why a command was not accepted.
#[derive(Debug, Clone, Copy, PartialEq, Eq, Structural)]
pub enum TcpCommandError {
    /// The packet is of another message type.
    NotTcpCommand { cmd: u8 },
    /// PARAM names no slot.
    IndexOutOfRange(u8),
    /// The payload is no command record.
    Malformed,
}

/// The command of a packet whose payload holds `record`; no record stands for a payload that
/// is none.
pub open spec fn decoded(cmd: u8, parameter: u8, record: Option<TcpCommandPayload>) -> Result<
    TcpCommandMessage,
    TcpCommandError,
> {
    if cmd != MessageType::TcpCommand.code() {
        Err(TcpCommandError::NotTcpCommand { cmd })
    } else if parameter > 3 {
        Err(TcpCommandError::IndexOutOfRange(parameter))
    } else {
        match record {
            Some(command) => Ok(TcpCommandMessage { index: parameter, command }),
            None => Err(TcpCommandError::Malformed),
        }
    }
}

/// The command of a packet whose payload was read as `record`.
pub fn decode(packet: &Packet<'_>, record: Option<TcpCommandPayload>) -> (r: Result<
    TcpCommandMessage,
    TcpCommandError,
>)
    ensures
        r == decoded(packet.cmd, packet.parameter, record),
{
    if packet.cmd != MessageType::TcpCommand.as_u8() {
        return Err(TcpCommandError::NotTcpCommand { cmd: packet.cmd });
    }
    if packet.parameter > 3 {
        return Err(TcpCommandError::IndexOutOfRange(packet.parameter));
    }
    match record {
        Some(command) => Ok(TcpCommandMessage { index: packet.parameter, command }),
        None => Err(TcpCommandError::Malformed),
    }
}

} // verus!
