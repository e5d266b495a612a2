//! Where each message of the master goes, and when the start is announced.

use vstd::prelude::*;

use crate::master::controller;
use crate::master::controller::{Controller, Record, RecordKind, Route, RouteError};
use crate::master::messages::interface_settings::InterfaceSettings;
use crate::master::messages::service_settings::ServiceSettings;
use crate::master::messages::tcp_command::TcpCommandPayload;
use crate::master::messages::wifi_scan::WifiScanRequestPayload;
use crate::master::protocol::Content;

verus! {

/// What a task gets is what was read from the message, and the message was one for that task. A
/// message is refused with an error of its own kind, and ignored where it is of none of the kinds
/// that tasks take.
pub proof fn law_message_goes_to_its_task(
    content: Content,
    record: Option<Record>,
    r: Result<Route, RouteError>,
)
    requires
        controller::is_routed(content, record, r),
    ensures
        match r {
            Ok(Route::WiFiStation(s)) => content.cmd == 2 && content.parameter == 1 && record
                == Some(Record::Interface(InterfaceSettings::WiFiStation(s))),
            Ok(Route::WiFiAccessPoint(s)) => content.cmd == 2 && content.parameter == 2 && record
                == Some(Record::Interface(InterfaceSettings::WiFiAccessPoint(s))),
            Ok(Route::Ethernet(s)) => content.cmd == 2 && content.parameter == 3 && record == Some(
                Record::Interface(InterfaceSettings::Ethernet(s)),
            ),
            Ok(Route::UdpListener(s)) => content.cmd == 4 && content.parameter == 1 && record
                == Some(Record::Service(ServiceSettings::UdpListener(s))),
            Ok(Route::TcpServer(s)) => content.cmd == 4 && content.parameter == 2 && record == Some(
                Record::Service(ServiceSettings::TcpServer(s)),
            ),
            Ok(Route::NtpClient(s)) => content.cmd == 4 && content.parameter == 3 && record == Some(
                Record::Service(ServiceSettings::NtpClient(s)),
            ),
            Ok(Route::TcpCommand(message)) => content.cmd == 6 && content.parameter == message.index
                && record == Some(Record::TcpCommand(message.command)),
            Ok(Route::TcpData(message)) => content.cmd == 7 && content.parameter == message.index
                && content.payload == message.payload@,
            Ok(Route::WifiScan(message)) => content.cmd == 8 && content.parameter == 0 && record
                == Some(
                Record::WifiScanRequest(WifiScanRequestPayload { limit: message.limit }),
            ),
            Ok(Route::Ignored) => content.cmd != 2 && content.cmd != 4 && content.cmd != 6
                && content.cmd != 7 && content.cmd != 8,
            Err(RouteError::Interface(_)) => content.cmd == 2,
            Err(RouteError::Service(_)) => content.cmd == 4,
            Err(RouteError::TcpCommand(_)) => content.cmd == 6,
            Err(RouteError::TcpData(_)) => content.cmd == 7,
            Err(RouteError::WifiScan(_)) => content.cmd == 8,
        },
{
}

/// Valid settings of an interface reach the task of that interface.
pub proof fn law_valid_interface_settings_arrive(
    content: Content,
    settings: InterfaceSettings,
    r: Result<Route, RouteError>,
)
    requires
        controller::is_routed(content, Some(Record::Interface(settings)), r),
        settings.valid(),
        content.cmd == 2,
        content.parameter == (match settings {
            InterfaceSettings::WiFiStation(_) => 1u8,
            InterfaceSettings::WiFiAccessPoint(_) => 2u8,
            InterfaceSettings::Ethernet(_) => 3u8,
        }),
    ensures
        r == (match settings {
            InterfaceSettings::WiFiStation(s) => Ok::<Route, RouteError>(Route::WiFiStation(s)),
            InterfaceSettings::WiFiAccessPoint(s) => Ok(Route::WiFiAccessPoint(s)),
            InterfaceSettings::Ethernet(s) => Ok(Route::Ethernet(s)),
        }),
{
}

/// Valid settings of a service reach the task of that service.
pub proof fn law_valid_service_settings_arrive(
    content: Content,
    settings: ServiceSettings,
    r: Result<Route, RouteError>,
)
    requires
        controller::is_routed(content, Some(Record::Service(settings)), r),
        settings.valid(),
        content.cmd == 4,
        content.parameter == (match settings {
            ServiceSettings::UdpListener(_) => 1u8,
            ServiceSettings::TcpServer(_) => 2u8,
            ServiceSettings::NtpClient(_) => 3u8,
        }),
    ensures
        r == (match settings {
            ServiceSettings::UdpListener(s) => Ok::<Route, RouteError>(Route::UdpListener(s)),
            ServiceSettings::TcpServer(s) => Ok(Route::TcpServer(s)),
            ServiceSettings::NtpClient(s) => Ok(Route::NtpClient(s)),
        }),
{
}

/// Commands and data for one of the four slots reach the TCP server, and scan requests the radio,
/// as they were sent.
pub proof fn law_requests_arrive(
    content: Content,
    command: TcpCommandPayload,
    request: WifiScanRequestPayload,
    commanded: Result<Route, RouteError>,
    sent: Result<Route, RouteError>,
    asked: Result<Route, RouteError>,
)
    requires
        content.parameter < 4,
        controller::is_routed(
            (Content { cmd: 6, ..content }),
            Some(Record::TcpCommand(command)),
            commanded,
        ),
        controller::is_routed((Content { cmd: 7, ..content }), None, sent),
        controller::is_routed(
            (Content { cmd: 8, parameter: 0, ..content }),
            Some(Record::WifiScanRequest(request)),
            asked,
        ),
    ensures
        commanded matches Ok(Route::TcpCommand(message)) && message.index == content.parameter
            && message.command == command,
        sent matches Ok(Route::TcpData(message)) && message.index == content.parameter
            && message.payload@ == content.payload,
        asked matches Ok(Route::WifiScan(message)) && message.limit == request.limit,
{
}

/// Which record the payload of a message is read as.
pub proof fn law_record_kinds(cmd: u8, parameter: u8)
    ensures
        controller::record_kind(cmd, parameter) == (if cmd == 2 && parameter == 1 {
            Some(RecordKind::WiFiStation)
        } else if cmd == 2 && parameter == 2 {
            Some(RecordKind::WiFiAccessPoint)
        } else if cmd == 2 && parameter == 3 {
            Some(RecordKind::Ethernet)
        } else if cmd == 4 && parameter == 1 {
            Some(RecordKind::UdpListener)
        } else if cmd == 4 && parameter == 2 {
            Some(RecordKind::TcpServer)
        } else if cmd == 4 && parameter == 3 {
            Some(RecordKind::NtpClient)
        } else if cmd == 6 && parameter < 4 {
            Some(RecordKind::TcpCommand)
        } else if cmd == 8 && parameter == 0 {
            Some(RecordKind::WifiScanRequest)
        } else {
            None
        }),
{
}

/// The start is announced in the first round and in every fifth after it while the master is
/// silent, and in no round after the master was heard, whenever that was.
pub proof fn law_start_is_announced_every_fifth_round(heard: Controller, rounds: nat)
    requires
        heard.wf(),
        heard.has_master_message,
    ensures
        (Controller { has_master_message: false, ready_tick: 0 }).after_rounds(rounds).announces()
            <==> rounds % 5 == 0,
        !heard.after_rounds(rounds).announces(),
        (Controller { has_master_message: true, ..heard }).after_rounds(rounds).wf(),
{
    let fresh = Controller { has_master_message: false, ready_tick: 0 };
    controller::law_start_is_announced_until_heard(fresh, rounds);
    controller::law_start_is_announced_until_heard(heard, rounds);
}

} // verus!
