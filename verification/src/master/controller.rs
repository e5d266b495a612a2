//! The main loop: the announcement of a start, and where the messages of the master go.

use vstd::prelude::*;

use crate::master::messages::interface_settings;
use crate::master::messages::interface_settings::{
    EthernetSettings, InterfaceSettings, InterfaceType, SettingsError, WiFiAccessPointSettings,
    WiFiStationSettings,
};
use crate::master::messages::service_settings;
use crate::master::messages::service_settings::{
    NtpClientSettings, ServiceError, ServiceSettings, ServiceType, TcpServerSettings,
    UdpListenerSettings,
};
use crate::master::messages::tcp_command;
use crate::master::messages::tcp_command::{TcpCommandError, TcpCommandMessage, TcpCommandPayload};
use crate::master::messages::tcp_data;
use crate::master::messages::tcp_data::{TcpDataError, TcpDataMessage};
use crate::master::messages::wifi_scan;
use crate::master::messages::wifi_scan::{
    WifiScanError, WifiScanRequestMessage, WifiScanRequestPayload,
};
use crate::master::protocol;
use crate::master::protocol::{MessageType, Packet};

verus! {

/// Rounds of the main loop from one announcement to the next.
pub const READY_PERIOD: u32 = 5;

/// The records that payloads can hold.
#[derive(Debug, Clone, Copy, PartialEq, Eq, Structural)]
pub enum RecordKind {
    WiFiStation,
    WiFiAccessPoint,
    Ethernet,
    UdpListener,
    TcpServer,
    NtpClient,
    TcpCommand,
    WifiScanRequest,
}

/// A record that was read from a payload.
#[derive(Debug)]
pub enum Record {
    Interface(InterfaceSettings),
    Service(ServiceSettings),
    TcpCommand(TcpCommandPayload),
    WifiScanRequest(WifiScanRequestPayload),
}

/// The task that a message is for.
#[derive(Debug)]
pub enum Route {
    WiFiStation(WiFiStationSettings),
    WiFiAccessPoint(WiFiAccessPointSettings),
    Ethernet(EthernetSettings),
    UdpListener(UdpListenerSettings),
    TcpServer(TcpServerSettings),
    NtpClient(NtpClientSettings),
    TcpCommand(TcpCommandMessage),
    TcpData(TcpDataMessage),
    WifiScan(WifiScanRequestMessage),
    /// The message is for no task.
    Ignored,
}

/// Why a message was refused.
#[derive(Debug, Clone, Copy, PartialEq, Eq, Structural)]
pub enum RouteError {
    Interface(SettingsError),
    Service(ServiceError),
    TcpCommand(TcpCommandError),
    TcpData(TcpDataError),
    WifiScan(WifiScanError),
}

/// The record that the payload of a packet holds; none if it holds no record, or if the packet
/// is refused whatever it holds.
pub open spec fn record_kind(cmd: u8, parameter: u8) -> Option<RecordKind> {
    if cmd == MessageType::InterfaceSettings.code() {
        match interface_settings::configured(cmd, parameter) {
            Ok(InterfaceType::WiFiStation) => Some(RecordKind::WiFiStation),
            Ok(InterfaceType::WiFiAccessPoint) => Some(RecordKind::WiFiAccessPoint),
            Ok(InterfaceType::Ethernet) => Some(RecordKind::Ethernet),
            _ => None,
        }
    } else if cmd == MessageType::ServiceSettings.code() {
        match service_settings::configured(cmd, parameter) {
            Ok(ServiceType::UdpListener) => Some(RecordKind::UdpListener),
            Ok(ServiceType::TcpServer) => Some(RecordKind::TcpServer),
            Ok(ServiceType::NtpClient) => Some(RecordKind::NtpClient),
            _ => None,
        }
    } else if cmd == MessageType::TcpCommand.code() && parameter <= 3 {
        Some(RecordKind::TcpCommand)
    } else if cmd == MessageType::WifiScan.code() && parameter == 0 {
        Some(RecordKind::WifiScanRequest)
    } else {
        None
    }
}

/// Which record the payload of a packet holds.
pub fn payload_record(packet: &Packet<'_>) -> (kind: Option<RecordKind>)
    ensures
        kind == record_kind(packet.cmd, packet.parameter),
{
    if packet.cmd == MessageType::InterfaceSettings.as_u8() {
        match interface_settings::payload_interface(packet) {
            Ok(InterfaceType::WiFiStation) => Some(RecordKind::WiFiStation),
            Ok(InterfaceType::WiFiAccessPoint) => Some(RecordKind::WiFiAccessPoint),
            Ok(InterfaceType::Ethernet) => Some(RecordKind::Ethernet),
            _ => None,
        }
    } else if packet.cmd == MessageType::ServiceSettings.as_u8() {
        match service_settings::payload_service(packet) {
            Ok(ServiceType::UdpListener) => Some(RecordKind::UdpListener),
            Ok(ServiceType::TcpServer) => Some(RecordKind::TcpServer),
            Ok(ServiceType::NtpClient) => Some(RecordKind::NtpClient),
            _ => None,
        }
    } else if packet.cmd == MessageType::TcpCommand.as_u8() && packet.parameter <= 3 {
        Some(RecordKind::TcpCommand)
    } else if packet.cmd == MessageType::WifiScan.as_u8() && packet.parameter == 0 {
        Some(RecordKind::WifiScanRequest)
    } else {
        None
    }
}

/// The settings of an interface, if that is what was read.
pub open spec fn interface_record(record: Option<Record>) -> Option<InterfaceSettings> {
    match record {
        Some(Record::Interface(s)) => Some(s),
        _ => None,
    }
}

/// The settings of a service, if that is what was read.
pub open spec fn service_record(record: Option<Record>) -> Option<ServiceSettings> {
    match record {
        Some(Record::Service(s)) => Some(s),
        _ => None,
    }
}

/// A command, if that is what was read.
pub open spec fn command_record(record: Option<Record>) -> Option<TcpCommandPayload> {
    match record {
        Some(Record::TcpCommand(c)) => Some(c),
        _ => None,
    }
}

/// A scan request, if that is what was read.
pub open spec fn scan_record(record: Option<Record>) -> Option<WifiScanRequestPayload> {
    match record {
        Some(Record::WifiScanRequest(r)) => Some(r),
        _ => None,
    }
}

/// The task that settings of an interface are for.
pub open spec fn interface_route(settings: InterfaceSettings) -> Route {
    match settings {
        InterfaceSettings::WiFiStation(s) => Route::WiFiStation(s),
        InterfaceSettings::WiFiAccessPoint(s) => Route::WiFiAccessPoint(s),
        InterfaceSettings::Ethernet(s) => Route::Ethernet(s),
    }
}

/// The task that settings of a service are for.
pub open spec fn service_route(settings: ServiceSettings) -> Route {
    match settings {
        ServiceSettings::UdpListener(s) => Route::UdpListener(s),
        ServiceSettings::TcpServer(s) => Route::TcpServer(s),
        ServiceSettings::NtpClient(s) => Route::NtpClient(s),
    }
}

/// Where a packet goes whose payload was read as `record`, or why it is refused.
pub open spec fn is_routed(
    content: protocol::Content,
    record: Option<Record>,
    r: Result<Route, RouteError>,
) -> bool {
    let cmd = content.cmd;
    let parameter = content.parameter;
    if cmd == MessageType::InterfaceSettings.code() {
        r == match interface_settings::decoded(cmd, parameter, interface_record(record)) {
            Ok(message) => Ok::<Route, RouteError>(interface_route(message.settings)),
            Err(e) => Err(RouteError::Interface(e)),
        }
    } else if cmd == MessageType::ServiceSettings.code() {
        r == match service_settings::decoded(cmd, parameter, service_record(record)) {
            Ok(message) => Ok::<Route, RouteError>(service_route(message.settings)),
            Err(e) => Err(RouteError::Service(e)),
        }
    } else if cmd == MessageType::TcpCommand.code() {
        r == match tcp_command::decoded(cmd, parameter, command_record(record)) {
            Ok(message) => Ok::<Route, RouteError>(Route::TcpCommand(message)),
            Err(e) => Err(RouteError::TcpCommand(e)),
        }
    } else if cmd == MessageType::TcpData.code() {
        match tcp_data::decoded(content) {
            Ok((index, payload)) => {
                &&& r matches Ok(Route::TcpData(message))
                &&& message.index == index
                &&& message.payload@ == payload
            },
            Err(e) => r == Err::<Route, RouteError>(RouteError::TcpData(e)),
        }
    } else if cmd == MessageType::WifiScan.code() {
        r == match wifi_scan::decoded(cmd, parameter, scan_record(record)) {
            Ok(message) => Ok::<Route, RouteError>(Route::WifiScan(message)),
            Err(e) => Err(RouteError::WifiScan(e)),
        }
    } else {
        r == Ok::<Route, RouteError>(Route::Ignored)
    }
}

/// Where a packet goes whose payload was read as `record`.
pub fn route(packet: &Packet<'_>, record: Option<Record>) -> (r: Result<Route, RouteError>)
    ensures
        is_routed(packet@, record, r),
{
    if packet.cmd == MessageType::ServiceSettings.as_u8() {
        let settings = match record {
            Some(Record::Service(s)) => Some(s),
            _ => None,
        };
        match service_settings::decode(packet, settings) {
            Ok(message) => match message.settings {
                ServiceSettings::UdpListener(s) => Ok(Route::UdpListener(s)),
                ServiceSettings::TcpServer(s) => Ok(Route::TcpServer(s)),
                ServiceSettings::NtpClient(s) => Ok(Route::NtpClient(s)),
            },
            Err(e) => Err(RouteError::Service(e)),
        }
    } else if packet.cmd == MessageType::TcpCommand.as_u8() {
        let command = match record {
            Some(Record::TcpCommand(c)) => Some(c),
            _ => None,
        };
        match tcp_command::decode(packet, command) {
            Ok(message) => Ok(Route::TcpCommand(message)),
            Err(e) => Err(RouteError::TcpCommand(e)),
        }
    } else if packet.cmd == MessageType::TcpData.as_u8() {
        match tcp_data::decode(packet) {
            Ok(message) => Ok(Route::TcpData(message)),
            Err(e) => Err(RouteError::TcpData(e)),
        }
    } else if packet.cmd == MessageType::WifiScan.as_u8() {
        let request = match record {
            Some(Record::WifiScanRequest(r)) => Some(r),
            _ => None,
        };
        match wifi_scan::decode(packet, request) {
            Ok(message) => Ok(Route::WifiScan(message)),
            Err(e) => Err(RouteError::WifiScan(e)),
        }
    } else if packet.cmd == MessageType::InterfaceSettings.as_u8() {
        let settings = match record {
            Some(Record::Interface(s)) => Some(s),
            _ => None,
        };
        match interface_settings::decode(packet, settings) {
            Ok(message) => match message.settings {
                InterfaceSettings::WiFiStation(s) => Ok(Route::WiFiStation(s)),
                InterfaceSettings::WiFiAccessPoint(s) => Ok(Route::WiFiAccessPoint(s)),
                InterfaceSettings::Ethernet(s) => Ok(Route::Ethernet(s)),
            },
            Err(e) => Err(RouteError::Interface(e)),
        }
    } else {
        Ok(Route::Ignored)
    }
}

/// Settings reach a task only if they are valid.
pub proof fn law_tasks_get_valid_settings(
    content: protocol::Content,
    record: Option<Record>,
    r: Result<Route, RouteError>,
)
    requires
        is_routed(content, record, r),
    ensures
        match r {
            Ok(Route::WiFiStation(s)) => s.valid(),
            Ok(Route::WiFiAccessPoint(s)) => s.valid(),
            Ok(Route::Ethernet(s)) => s.valid(),
            Ok(Route::UdpListener(s)) => s.valid(),
            Ok(Route::TcpServer(s)) => s.valid(),
            Ok(Route::NtpClient(s)) => s.valid(),
            Ok(Route::TcpCommand(message)) => message.index <= 3,
            Ok(Route::TcpData(message)) => message.index <= 3,
            _ => true,
        },
{
    interface_settings::law_only_valid_settings_are_accepted(
        content.cmd,
        content.parameter,
        interface_record(record),
    );
    service_settings::law_only_valid_settings_are_accepted(
        content.cmd,
        content.parameter,
        service_record(record),
    );
}

/// A message that no task takes part in is ignored, never refused; those are the messages that
/// only the coprocessor sends, and numbers that name no message.
pub proof fn law_foreign_messages_are_ignored(
    content: protocol::Content,
    record: Option<Record>,
    r: Result<Route, RouteError>,
)
    requires
        is_routed(content, record, r),
    ensures
        r == Ok::<Route, RouteError>(Route::Ignored) <==> match protocol::message_type(
            content.cmd,
        ) {
            Ok(MessageType::InterfaceSettings) => false,
            Ok(MessageType::ServiceSettings) => false,
            Ok(MessageType::TcpCommand) => false,
            Ok(MessageType::TcpData) => false,
            Ok(MessageType::WifiScan) => false,
            _ => true,
        },
{
}

/// The announcement of a start.
#[derive(Debug, Clone, Copy, PartialEq, Eq, Structural)]
pub struct Controller {
    /// Whether a frame of the master has come.
    pub has_master_message: bool,
    /// Rounds since the last announcement was due.
    pub ready_tick: u32,
}

impl Controller {
    pub open spec fn wf(self) -> bool {
        self.ready_tick < READY_PERIOD
    }

    /// Whether the start is announced in this round.
    pub open spec fn announces(self) -> bool {
        !self.has_master_message && self.ready_tick == 0
    }

    /// The next round.
    pub open spec fn ticked(self) -> Controller {
        Controller {
            ready_tick: ((self.ready_tick + 1) % (READY_PERIOD as int)) as u32,
            ..self
        }
    }

    /// The round after `rounds` more rounds without a frame of the master.
    pub open spec fn after_rounds(self, rounds: nat) -> Controller
        decreases rounds,
    {
        if rounds == 0 {
            self
        } else {
            self.after_rounds((rounds - 1) as nat).ticked()
        }
    }

    pub fn new() -> (controller: Controller)
        ensures
            controller.wf(),
            controller.announces(),
            controller == (Controller { has_master_message: false, ready_tick: 0 }),
    {
        Controller { has_master_message: false, ready_tick: 0 }
    }

    /// A valid frame of the master has come.
    pub fn frame_received(&mut self)
        requires
            old(self).wf(),
        ensures
            final(self).wf(),
            *final(self) == (Controller { has_master_message: true, ..*old(self) }),
    {
        self.has_master_message = true;
    }

    /// Ends a round; returns whether the start is announced in it.
    pub fn tick(&mut self) -> (ready: bool)
        requires
            old(self).wf(),
        ensures
            final(self).wf(),
            ready == old(self).announces(),
            *final(self) == old(self).ticked(),
    {
        let ready = !self.has_master_message && self.ready_tick == 0;
        self.ready_tick = (self.ready_tick + 1) % READY_PERIOD;
        ready
    }
}

/// Until a frame of the master has come, the start is announced in every fifth round, and in no
/// other; after that it is never announced again.
pub proof fn law_start_is_announced_until_heard(c: Controller, rounds: nat)
    requires
        c.wf(),
    ensures
        c.after_rounds(rounds).wf(),
        c.after_rounds(rounds).has_master_message == c.has_master_message,
        c.after_rounds(rounds).announces() <==> !c.has_master_message && (c.ready_tick + rounds)
            % (READY_PERIOD as int) == 0,
{
    lemma_rounds(c, rounds);
}

proof fn lemma_rounds(c: Controller, rounds: nat)
    requires
        c.wf(),
    ensures
        c.after_rounds(rounds).wf(),
        c.after_rounds(rounds).has_master_message == c.has_master_message,
        c.after_rounds(rounds).ready_tick == (c.ready_tick + rounds) % (READY_PERIOD as int),
    decreases rounds,
{
    if rounds > 0 {
        lemma_rounds(c, (rounds - 1) as nat);
    }
}

} // verus!
