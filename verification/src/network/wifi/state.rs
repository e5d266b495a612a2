//! Disconnect reasons of the station, and small decisions around its reports.

use vstd::prelude::*;

use crate::bytes;
use crate::master::messages::interface_settings::{InterfaceType, WiFiStationSettings};
use crate::master::messages::interface_state;
use crate::master::messages::interface_state::RssiPayload;
use crate::master::messages::payload::Payload;
use crate::master::protocol;
use crate::master::protocol::PacketError;

verus! {

/// Why the station lost its network.
#[derive(Debug, Clone, Copy, PartialEq, Eq, Structural)]
pub enum WifiDisconnectReason {
    UnknownOrNotSet,
    Unspecified,
    AuthExpire,
    AuthLeave,
    AssocExpire,
    AssocTooMany,
    NotAuthed,
    NotAssoced,
    AssocLeave,
    MicFailure,
    FourWayHandshakeTimeout,
    GroupKeyUpdateTimeout,
    Auth8021xFailed,
    Timeout,
    PeerInitiated,
    ApInitiated,
    BeaconTimeout,
    NoApFound,
    AuthFail,
    AssocFail,
    HandshakeTimeout,
    ConnectionFail,
    ApTsfReset,
    Roaming,
    NoApFoundCompatibleSecurity,
    NoApFoundAuthmodeThreshold,
    NoApFoundRssiThreshold,
}

impl WifiDisconnectReason {
    /// The platform's number of the reason.
    pub open spec fn code(self) -> i32 {
        match self {
            WifiDisconnectReason::UnknownOrNotSet => 0,
            WifiDisconnectReason::Unspecified => 1,
            WifiDisconnectReason::AuthExpire => 2,
            WifiDisconnectReason::AuthLeave => 3,
            WifiDisconnectReason::AssocExpire => 4,
            WifiDisconnectReason::AssocTooMany => 5,
            WifiDisconnectReason::NotAuthed => 6,
            WifiDisconnectReason::NotAssoced => 7,
            WifiDisconnectReason::AssocLeave => 8,
            WifiDisconnectReason::MicFailure => 14,
            WifiDisconnectReason::FourWayHandshakeTimeout => 15,
            WifiDisconnectReason::GroupKeyUpdateTimeout => 16,
            WifiDisconnectReason::Auth8021xFailed => 23,
            WifiDisconnectReason::Timeout => 39,
            WifiDisconnectReason::PeerInitiated => 46,
            WifiDisconnectReason::ApInitiated => 47,
            WifiDisconnectReason::BeaconTimeout => 200,
            WifiDisconnectReason::NoApFound => 201,
            WifiDisconnectReason::AuthFail => 202,
            WifiDisconnectReason::AssocFail => 203,
            WifiDisconnectReason::HandshakeTimeout => 204,
            WifiDisconnectReason::ConnectionFail => 205,
            WifiDisconnectReason::ApTsfReset => 206,
            WifiDisconnectReason::Roaming => 207,
            WifiDisconnectReason::NoApFoundCompatibleSecurity => 210,
            WifiDisconnectReason::NoApFoundAuthmodeThreshold => 211,
            WifiDisconnectReason::NoApFoundRssiThreshold => 212,
        }
    }

    /// The name of the reason in logs.
    pub open spec fn text(self) -> Seq<char> {
        match self {
            WifiDisconnectReason::UnknownOrNotSet => "UNKNOWN_OR_NOT_SET"@,
            WifiDisconnectReason::Unspecified => "UNSPECIFIED"@,
            WifiDisconnectReason::AuthExpire => "AUTH_EXPIRE"@,
            WifiDisconnectReason::AuthLeave => "AUTH_LEAVE"@,
            WifiDisconnectReason::AssocExpire => "ASSOC_EXPIRE"@,
            WifiDisconnectReason::AssocTooMany => "ASSOC_TOOMANY"@,
            WifiDisconnectReason::NotAuthed => "NOT_AUTHED"@,
            WifiDisconnectReason::NotAssoced => "NOT_ASSOCED"@,
            WifiDisconnectReason::AssocLeave => "ASSOC_LEAVE"@,
            WifiDisconnectReason::MicFailure => "MIC_FAILURE"@,
            WifiDisconnectReason::FourWayHandshakeTimeout => "4WAY_HANDSHAKE_TIMEOUT"@,
            WifiDisconnectReason::GroupKeyUpdateTimeout => "GROUP_KEY_UPDATE_TIMEOUT"@,
            WifiDisconnectReason::Auth8021xFailed => "802_1X_AUTH_FAILED"@,
            WifiDisconnectReason::Timeout => "TIMEOUT"@,
            WifiDisconnectReason::PeerInitiated => "PEER_INITIATED"@,
            WifiDisconnectReason::ApInitiated => "AP_INITIATED"@,
            WifiDisconnectReason::BeaconTimeout => "BEACON_TIMEOUT"@,
            WifiDisconnectReason::NoApFound => "NO_AP_FOUND"@,
            WifiDisconnectReason::AuthFail => "AUTH_FAIL"@,
            WifiDisconnectReason::AssocFail => "ASSOC_FAIL"@,
            WifiDisconnectReason::HandshakeTimeout => "HANDSHAKE_TIMEOUT"@,
            WifiDisconnectReason::ConnectionFail => "CONNECTION_FAIL"@,
            WifiDisconnectReason::ApTsfReset => "AP_TSF_RESET"@,
            WifiDisconnectReason::Roaming => "ROAMING"@,
            WifiDisconnectReason::NoApFoundCompatibleSecurity => "NO_AP_FOUND_COMPATIBLE_SECURITY"@,
            WifiDisconnectReason::NoApFoundAuthmodeThreshold => "NO_AP_FOUND_AUTHMODE_THRESHOLD"@,
            WifiDisconnectReason::NoApFoundRssiThreshold => "NO_AP_FOUND_RSSI_THRESHOLD"@,
        }
    }

    pub fn from_code(code: i32) -> (r: Option<WifiDisconnectReason>)
        ensures
            r == reason_with(code),
            match r {
                Some(reason) => reason.code() == code,
                None => forall|reason: WifiDisconnectReason| reason.code() != code,
            },
    {
        let found = match code {
            0 => Some(WifiDisconnectReason::UnknownOrNotSet),
            1 => Some(WifiDisconnectReason::Unspecified),
            2 => Some(WifiDisconnectReason::AuthExpire),
            3 => Some(WifiDisconnectReason::AuthLeave),
            4 => Some(WifiDisconnectReason::AssocExpire),
            5 => Some(WifiDisconnectReason::AssocTooMany),
            6 => Some(WifiDisconnectReason::NotAuthed),
            7 => Some(WifiDisconnectReason::NotAssoced),
            8 => Some(WifiDisconnectReason::AssocLeave),
            14 => Some(WifiDisconnectReason::MicFailure),
            15 => Some(WifiDisconnectReason::FourWayHandshakeTimeout),
            16 => Some(WifiDisconnectReason::GroupKeyUpdateTimeout),
            23 => Some(WifiDisconnectReason::Auth8021xFailed),
            39 => Some(WifiDisconnectReason::Timeout),
            46 => Some(WifiDisconnectReason::PeerInitiated),
            47 => Some(WifiDisconnectReason::ApInitiated),
            200 => Some(WifiDisconnectReason::BeaconTimeout),
            201 => Some(WifiDisconnectReason::NoApFound),
            202 => Some(WifiDisconnectReason::AuthFail),
            203 => Some(WifiDisconnectReason::AssocFail),
            204 => Some(WifiDisconnectReason::HandshakeTimeout),
            205 => Some(WifiDisconnectReason::ConnectionFail),
            206 => Some(WifiDisconnectReason::ApTsfReset),
            207 => Some(WifiDisconnectReason::Roaming),
            210 => Some(WifiDisconnectReason::NoApFoundCompatibleSecurity),
            211 => Some(WifiDisconnectReason::NoApFoundAuthmodeThreshold),
            212 => Some(WifiDisconnectReason::NoApFoundRssiThreshold),
            _ => None,
        };
        proof {
            if let Some(reason) = found {
                law_reason_by_code(reason);
            }
        }
        found
    }

    pub fn as_text(self) -> (text: &'static str)
        ensures
            text@ == self.text(),
    {
        match self {
            WifiDisconnectReason::UnknownOrNotSet => "UNKNOWN_OR_NOT_SET",
            WifiDisconnectReason::Unspecified => "UNSPECIFIED",
            WifiDisconnectReason::AuthExpire => "AUTH_EXPIRE",
            WifiDisconnectReason::AuthLeave => "AUTH_LEAVE",
            WifiDisconnectReason::AssocExpire => "ASSOC_EXPIRE",
            WifiDisconnectReason::AssocTooMany => "ASSOC_TOOMANY",
            WifiDisconnectReason::NotAuthed => "NOT_AUTHED",
            WifiDisconnectReason::NotAssoced => "NOT_ASSOCED",
            WifiDisconnectReason::AssocLeave => "ASSOC_LEAVE",
            WifiDisconnectReason::MicFailure => "MIC_FAILURE",
            WifiDisconnectReason::FourWayHandshakeTimeout => "4WAY_HANDSHAKE_TIMEOUT",
            WifiDisconnectReason::GroupKeyUpdateTimeout => "GROUP_KEY_UPDATE_TIMEOUT",
            WifiDisconnectReason::Auth8021xFailed => "802_1X_AUTH_FAILED",
            WifiDisconnectReason::Timeout => "TIMEOUT",
            WifiDisconnectReason::PeerInitiated => "PEER_INITIATED",
            WifiDisconnectReason::ApInitiated => "AP_INITIATED",
            WifiDisconnectReason::BeaconTimeout => "BEACON_TIMEOUT",
            WifiDisconnectReason::NoApFound => "NO_AP_FOUND",
            WifiDisconnectReason::AuthFail => "AUTH_FAIL",
            WifiDisconnectReason::AssocFail => "ASSOC_FAIL",
            WifiDisconnectReason::HandshakeTimeout => "HANDSHAKE_TIMEOUT",
            WifiDisconnectReason::ConnectionFail => "CONNECTION_FAIL",
            WifiDisconnectReason::ApTsfReset => "AP_TSF_RESET",
            WifiDisconnectReason::Roaming => "ROAMING",
            WifiDisconnectReason::NoApFoundCompatibleSecurity => "NO_AP_FOUND_COMPATIBLE_SECURITY",
            WifiDisconnectReason::NoApFoundAuthmodeThreshold => "NO_AP_FOUND_AUTHMODE_THRESHOLD",
            WifiDisconnectReason::NoApFoundRssiThreshold => "NO_AP_FOUND_RSSI_THRESHOLD",
        }
    }
}

/// The reason with a number, if there is one.
pub open spec fn reason_with(code: i32) -> Option<WifiDisconnectReason> {
    if exists|reason: WifiDisconnectReason| reason.code() == code {
        Some(choose|reason: WifiDisconnectReason| reason.code() == code)
    } else {
        None
    }
}

/// Two reasons never share a number.
pub proof fn law_reasons_are_told_apart(a: WifiDisconnectReason, b: WifiDisconnectReason)
    requires
        a.code() == b.code(),
    ensures
        a == b,
{
}

/// A reason is found again by its number.
pub proof fn law_reason_by_code(reason: WifiDisconnectReason)
    ensures
        reason_with(reason.code()) == Some(reason),
{
}

/// The name of a disconnect reason in logs.
pub open spec fn reason_text(code: i32) -> Seq<char> {
    match reason_with(code) {
        Some(reason) => reason.text(),
        None => "OTHER"@,
    }
}

pub fn disconnect_reason_text(reason: i32) -> (text: &'static str)
    ensures
        text@ == reason_text(reason),
{
    match WifiDisconnectReason::from_code(reason) {
        Some(known) => known.as_text(),
        None => "OTHER",
    }
}

/// The next settings, or the end of the task if none can come any more.
pub fn recv_next_or_stop(received: Option<WiFiStationSettings>) -> (r: Result<
    WiFiStationSettings,
    (),
>)
    ensures
        match received {
            Some(settings) => r == Ok::<WiFiStationSettings, ()>(settings),
            None => r == Err::<WiFiStationSettings, ()>(()),
        },
{
    match received {
        Some(settings) => Ok(settings),
        None => Err(()),
    }
}

/// What is queued for the master after a frame was built, or was not.
pub open spec fn queued(outbox: Seq<Seq<u8>>, frame: Result<Seq<u8>, PacketError>) -> Seq<Seq<u8>> {
    match frame {
        Ok(frame) => outbox.push(frame),
        Err(_) => outbox,
    }
}

/// Queues a frame for the master; one that could not be built is dropped.
pub fn send_interface_state(outbox: &mut Vec<Vec<u8>>, frame_result: Result<Vec<u8>, PacketError>)
    ensures
        bytes::views(final(outbox)@) == queued(
            bytes::views(old(outbox)@),
            protocol::bytes_of(frame_result),
        ),
{
    match frame_result {
        Ok(frame) => {
            let ghost this = frame@;
            outbox.push(frame);
            assert(bytes::views(outbox@) =~= bytes::views(old(outbox)@).push(this));
        },
        Err(_) => {},
    }
}

/// The code that a failed connection is reported with: the disconnect reason if there is one,
/// which is used up, else the platform's error.
pub fn resolve_connect_error_code(esp_error_code: i32, disconnect_reason: &mut i32) -> (code: i32)
    ensures
        *final(disconnect_reason) == 0,
        code == resolved_code(esp_error_code, *old(disconnect_reason)),
{
    let reason: i32 = *disconnect_reason;
    *disconnect_reason = 0;
    if reason != 0 {
        reason
    } else {
        esp_error_code
    }
}

/// The disconnect reason if there is one, else the platform's error.
pub open spec fn resolved_code(esp_error_code: i32, disconnect_reason: i32) -> i32 {
    if disconnect_reason != 0 {
        disconnect_reason
    } else {
        esp_error_code
    }
}

/// Reports the signal strength if it could be read.
pub fn report_rssi_once(outbox: &mut Vec<Vec<u8>>, rssi: Option<i32>)
    ensures
        bytes::views(final(outbox)@) == match rssi {
            Some(rssi) => queued(
                bytes::views(old(outbox)@),
                interface_state::state_frame(
                    InterfaceType::WiFiStation,
                    (RssiPayload { rssi }).value(),
                ),
            ),
            None => bytes::views(old(outbox)@),
        },
{
    match rssi {
        Some(rssi) => send_interface_state(
            outbox,
            interface_state::encode_rssi(InterfaceType::WiFiStation, rssi),
        ),
        None => {},
    }
}

/// The names of the disconnect reasons by their numbers.
pub proof fn law_reason_names(code: i32)
    ensures
        reason_text(code) == (match code {
            0 => "UNKNOWN_OR_NOT_SET"@,
            1 => "UNSPECIFIED"@,
            2 => "AUTH_EXPIRE"@,
            3 => "AUTH_LEAVE"@,
            4 => "ASSOC_EXPIRE"@,
            5 => "ASSOC_TOOMANY"@,
            6 => "NOT_AUTHED"@,
            7 => "NOT_ASSOCED"@,
            8 => "ASSOC_LEAVE"@,
            14 => "MIC_FAILURE"@,
            15 => "4WAY_HANDSHAKE_TIMEOUT"@,
            16 => "GROUP_KEY_UPDATE_TIMEOUT"@,
            23 => "802_1X_AUTH_FAILED"@,
            39 => "TIMEOUT"@,
            46 => "PEER_INITIATED"@,
            47 => "AP_INITIATED"@,
            200 => "BEACON_TIMEOUT"@,
            201 => "NO_AP_FOUND"@,
            202 => "AUTH_FAIL"@,
            203 => "ASSOC_FAIL"@,
            204 => "HANDSHAKE_TIMEOUT"@,
            205 => "CONNECTION_FAIL"@,
            206 => "AP_TSF_RESET"@,
            207 => "ROAMING"@,
            210 => "NO_AP_FOUND_COMPATIBLE_SECURITY"@,
            211 => "NO_AP_FOUND_AUTHMODE_THRESHOLD"@,
            212 => "NO_AP_FOUND_RSSI_THRESHOLD"@,
            _ => "OTHER"@,
        }),
{
    law_reason_by_code(WifiDisconnectReason::UnknownOrNotSet);
    law_reason_by_code(WifiDisconnectReason::Unspecified);
    law_reason_by_code(WifiDisconnectReason::AuthExpire);
    law_reason_by_code(WifiDisconnectReason::AuthLeave);
    law_reason_by_code(WifiDisconnectReason::AssocExpire);
    law_reason_by_code(WifiDisconnectReason::AssocTooMany);
    law_reason_by_code(WifiDisconnectReason::NotAuthed);
    law_reason_by_code(WifiDisconnectReason::NotAssoced);
    law_reason_by_code(WifiDisconnectReason::AssocLeave);
    law_reason_by_code(WifiDisconnectReason::MicFailure);
    law_reason_by_code(WifiDisconnectReason::FourWayHandshakeTimeout);
    law_reason_by_code(WifiDisconnectReason::GroupKeyUpdateTimeout);
    law_reason_by_code(WifiDisconnectReason::Auth8021xFailed);
    law_reason_by_code(WifiDisconnectReason::Timeout);
    law_reason_by_code(WifiDisconnectReason::PeerInitiated);
    law_reason_by_code(WifiDisconnectReason::ApInitiated);
    law_reason_by_code(WifiDisconnectReason::BeaconTimeout);
    law_reason_by_code(WifiDisconnectReason::NoApFound);
    law_reason_by_code(WifiDisconnectReason::AuthFail);
    law_reason_by_code(WifiDisconnectReason::AssocFail);
    law_reason_by_code(WifiDisconnectReason::HandshakeTimeout);
    law_reason_by_code(WifiDisconnectReason::ConnectionFail);
    law_reason_by_code(WifiDisconnectReason::ApTsfReset);
    law_reason_by_code(WifiDisconnectReason::Roaming);
    law_reason_by_code(WifiDisconnectReason::NoApFoundCompatibleSecurity);
    law_reason_by_code(WifiDisconnectReason::NoApFoundAuthmodeThreshold);
    law_reason_by_code(WifiDisconnectReason::NoApFoundRssiThreshold);
}

/// A frame that was built is queued behind the others; one that was not changes nothing.
pub proof fn law_frames_are_queued_at_the_end(
    outbox: Seq<Seq<u8>>,
    frame: Result<Seq<u8>, PacketError>,
)
    ensures
        frame is Err ==> queued(outbox, frame) == outbox,
        frame is Ok ==> queued(outbox, frame).len() == outbox.len() + 1 && queued(
            outbox,
            frame,
        ).drop_last() == outbox && queued(outbox, frame).last() == frame->Ok_0,
{
    if frame is Ok {
        assert(queued(outbox, frame).drop_last() =~= outbox);
    }
}

} // verus!
