//! `ServiceSettings`: how the master configures a network service.

use vstd::prelude::*;

use crate::master::messages::interface_settings;
use crate::master::protocol::{MessageType, Packet};
use crate::text;

verus! {

/// The most request ports, and the most response ports, of the UDP listener.
pub const MAX_UDP_PORTS: usize = 2;

/// The longest service identifier, in bytes.
pub const MAX_SERVICE_ID_BYTES: usize = 32;

/// The most servers of the NTP client.
pub const MAX_NTP_SERVERS: usize = 3;

#[derive(Debug, Clone, Copy, PartialEq, Eq, Structural)]
pub enum ServiceType {
    Undefined,
    UdpListener,
    TcpServer,
    NtpClient,
}

/// Why settings were not accepted.
#[derive(Debug, Clone, Copy, PartialEq, Eq, Structural)]
pub enum ServiceError {
    /// The packet is of another message type.
    NotServiceSettings { cmd: u8 },
    /// PARAM names no service.
    UnknownService(u8),
    /// PARAM is the placeholder of a service.
    UndefinedService,
    /// The payload is no settings record of the service.
    Malformed,
    /// There are no request ports, or too many.
    RequestPortCount { got: usize },
    /// There are no response ports, or too many.
    ResponsePortCount { got: usize },
    RequestPortZero,
    ResponsePortZero,
    RequestTypeEmpty,
    /// The service identifier is empty or too long.
    ServiceIdLength { len: usize },
    PortZero,
    ClientTimeout(u16),
    Timezone(i32),
    /// There are no servers, or too many.
    ServerCount { got: usize },
    ResyncPeriod(u16),
    /// A server name is nothing but white space.
    ServerBlank,
}

impl ServiceType {
    /// The number of the service on the wire.
    pub open spec fn code(self) -> u8 {
        match self {
            ServiceType::Undefined => 0,
            ServiceType::UdpListener => 1,
            ServiceType::TcpServer => 2,
            ServiceType::NtpClient => 3,
        }
    }

    pub fn as_u8(self) -> (code: u8)
        ensures
            code == self.code(),
    {
        match self {
            ServiceType::Undefined => 0,
            ServiceType::UdpListener => 1,
            ServiceType::TcpServer => 2,
            ServiceType::NtpClient => 3,
        }
    }
}

/// The service with the number `value`.
pub open spec fn service_type(value: u8) -> Result<ServiceType, ServiceError> {
    if value == 0 {
        Ok(ServiceType::Undefined)
    } else if value == 1 {
        Ok(ServiceType::UdpListener)
    } else if value == 2 {
        Ok(ServiceType::TcpServer)
    } else if value == 3 {
        Ok(ServiceType::NtpClient)
    } else {
        Err(ServiceError::UnknownService(value))
    }
}

impl TryFrom<u8> for ServiceType {
    type Error = ServiceError;

    fn try_from(value: u8) -> (r: Result<ServiceType, ServiceError>) {
        match value {
            0 => Ok(ServiceType::Undefined),
            1 => Ok(ServiceType::UdpListener),
            2 => Ok(ServiceType::TcpServer),
            3 => Ok(ServiceType::NtpClient),
            _ => Err(ServiceError::UnknownService(value)),
        }
    }
}

impl vstd::std_specs::convert::TryFromSpecImpl<u8> for ServiceType {
    open spec fn obeys_try_from_spec() -> bool {
        true
    }

    open spec fn try_from_spec(value: u8) -> Result<ServiceType, ServiceError> {
        service_type(value)
    }
}

/// A service is found again by its number.
pub proof fn law_service_by_code(service: ServiceType)
    ensures
        service_type(service.code()) == Ok::<ServiceType, ServiceError>(service),
{
}

/// Settings of the UDP discovery listener.
#[derive(Debug, Clone)]
pub struct UdpListenerSettings {
    pub request_ports: Vec<u16>,
    pub response_ports: Vec<u16>,
    /// The `type` of the requests that are answered.
    pub request_type: String,
    pub service_id: String,
    pub device_type: u16,
    /// TCP port advertised to clients in the UDP response.
    pub port: u16,
}

/// Settings of the TCP server.
#[derive(Debug, Clone)]
pub struct TcpServerSettings {
    pub port: u16,
    /// Seconds after which a silent client is dropped; 0 for never.
    pub client_timeout: u16,
}

/// Settings of the NTP client.
#[derive(Debug, Clone)]
pub struct NtpClientSettings {
    pub enabled: bool,
    /// Minutes that local time is ahead of UTC.
    pub timezone: i32,
    /// Minutes from one successful synchronisation to the next.
    pub resync_period: u16,
    /// The servers, the preferred one first.
    pub servers: Vec<String>,
}

/// The resync period of settings that name none, in minutes.
pub fn default_ntp_resync_period() -> (minutes: u16)
    ensures
        minutes == 15,
{
    15
}

#[derive(Debug, Clone)]
pub enum ServiceSettings {
    UdpListener(UdpListenerSettings),
    TcpServer(TcpServerSettings),
    NtpClient(NtpClientSettings),
}

#[derive(Debug, Clone)]
pub struct ServiceSettingsMessage {
    pub service: ServiceType,
    pub settings: ServiceSettings,
}

impl UdpListenerSettings {
    /// The settings that the UDP listener accepts.
    pub open spec fn valid(self) -> bool {
        &&& 1 <= self.request_ports@.len() <= MAX_UDP_PORTS
        &&& 1 <= self.response_ports@.len() <= MAX_UDP_PORTS
        &&& !self.request_ports@.contains(0)
        &&& !self.response_ports@.contains(0)
        &&& self.request_type@.len() > 0
        &&& 1 <= text::byte_len(self.service_id@) <= MAX_SERVICE_ID_BYTES
        &&& self.port != 0
    }
}

impl TcpServerSettings {
    /// The settings that the TCP server accepts.
    pub open spec fn valid(self) -> bool {
        self.port != 0 && self.client_timeout <= 600
    }
}

impl NtpClientSettings {
    /// The settings that the NTP client accepts.
    pub open spec fn valid(self) -> bool {
        &&& -720 <= self.timezone <= 840
        &&& 1 <= self.servers@.len() <= MAX_NTP_SERVERS
        &&& 1 <= self.resync_period <= 1440
        &&& forall|i: int| 0 <= i < self.servers@.len() ==> !text::blank(#[trigger] self.servers@[i]@)
    }
}

impl ServiceSettings {
    /// The settings that the service accepts.
    pub open spec fn valid(self) -> bool {
        match self {
            ServiceSettings::UdpListener(s) => s.valid(),
            ServiceSettings::TcpServer(s) => s.valid(),
            ServiceSettings::NtpClient(s) => s.valid(),
        }
    }

    /// The service that the settings are for.
    pub open spec fn service(self) -> ServiceType {
        match self {
            ServiceSettings::UdpListener(_) => ServiceType::UdpListener,
            ServiceSettings::TcpServer(_) => ServiceType::TcpServer,
            ServiceSettings::NtpClient(_) => ServiceType::NtpClient,
        }
    }
}

/// The first fault of UDP listener settings.
pub open spec fn udp_fault(s: UdpListenerSettings) -> Option<ServiceError> {
    if !(1 <= s.request_ports@.len() <= MAX_UDP_PORTS) {
        Some(ServiceError::RequestPortCount { got: s.request_ports@.len() as usize })
    } else if !(1 <= s.response_ports@.len() <= MAX_UDP_PORTS) {
        Some(ServiceError::ResponsePortCount { got: s.response_ports@.len() as usize })
    } else if s.request_ports@.contains(0) {
        Some(ServiceError::RequestPortZero)
    } else if s.response_ports@.contains(0) {
        Some(ServiceError::ResponsePortZero)
    } else if s.request_type@.len() == 0 {
        Some(ServiceError::RequestTypeEmpty)
    } else if !(1 <= text::byte_len(s.service_id@) <= MAX_SERVICE_ID_BYTES) {
        Some(ServiceError::ServiceIdLength { len: text::byte_len(s.service_id@) as usize })
    } else if s.port == 0 {
        Some(ServiceError::PortZero)
    } else {
        None
    }
}

/// The first fault of TCP server settings.
pub open spec fn tcp_fault(s: TcpServerSettings) -> Option<ServiceError> {
    if s.port == 0 {
        Some(ServiceError::PortZero)
    } else if s.client_timeout > 600 {
        Some(ServiceError::ClientTimeout(s.client_timeout))
    } else {
        None
    }
}

/// The first fault of NTP client settings.
pub open spec fn ntp_fault(s: NtpClientSettings) -> Option<ServiceError> {
    if !(-720 <= s.timezone <= 840) {
        Some(ServiceError::Timezone(s.timezone))
    } else if !(1 <= s.servers@.len() <= MAX_NTP_SERVERS) {
        Some(ServiceError::ServerCount { got: s.servers@.len() as usize })
    } else if !(1 <= s.resync_period <= 1440) {
        Some(ServiceError::ResyncPeriod(s.resync_period))
    } else if exists|i: int| 0 <= i < s.servers@.len() && text::blank(#[trigger] s.servers@[i]@) {
        Some(ServiceError::ServerBlank)
    } else {
        None
    }
}

/// The first fault of settings.
pub open spec fn settings_fault(s: ServiceSettings) -> Option<ServiceError> {
    match s {
        ServiceSettings::UdpListener(s) => udp_fault(s),
        ServiceSettings::TcpServer(s) => tcp_fault(s),
        ServiceSettings::NtpClient(s) => ntp_fault(s),
    }
}

fn holds_zero(ports: &Vec<u16>) -> (r: bool)
    ensures
        r == ports@.contains(0),
{
    let mut i: usize = 0;
    while i < ports.len()
        invariant
            0 <= i <= ports@.len(),
            forall|k: int| 0 <= k < i ==> ports@[k] != 0,
        decreases ports@.len() - i,
    {
        if ports[i] == 0 {
            assert(ports@[i as int] == 0);
            return true;
        }
        i += 1;
    }
    false
}

pub fn validate_udp_listener(s: &UdpListenerSettings) -> (r: Result<(), ServiceError>)
    ensures
        r == interface_settings::checked(udp_fault(*s)),
        r is Ok <==> s.valid(),
{
    if s.request_ports.len() < 1 || s.request_ports.len() > MAX_UDP_PORTS {
        return Err(ServiceError::RequestPortCount { got: s.request_ports.len() });
    }
    if s.response_ports.len() < 1 || s.response_ports.len() > MAX_UDP_PORTS {
        return Err(ServiceError::ResponsePortCount { got: s.response_ports.len() });
    }
    if holds_zero(&s.request_ports) {
        return Err(ServiceError::RequestPortZero);
    }
    if holds_zero(&s.response_ports) {
        return Err(ServiceError::ResponsePortZero);
    }
    if s.request_type.as_str().is_empty() {
        return Err(ServiceError::RequestTypeEmpty);
    }
    let id_len: usize = text::utf8_len(s.service_id.as_str());
    if id_len < 1 || id_len > MAX_SERVICE_ID_BYTES {
        return Err(ServiceError::ServiceIdLength { len: id_len });
    }
    if s.port == 0 {
        return Err(ServiceError::PortZero);
    }
    Ok(())
}

pub fn validate_tcp_server(s: &TcpServerSettings) -> (r: Result<(), ServiceError>)
    ensures
        r == interface_settings::checked(tcp_fault(*s)),
        r is Ok <==> s.valid(),
{
    if s.port == 0 {
        return Err(ServiceError::PortZero);
    }
    if s.client_timeout > 600 {
        return Err(ServiceError::ClientTimeout(s.client_timeout));
    }
    Ok(())
}

pub fn validate_ntp_client(s: &NtpClientSettings) -> (r: Result<(), ServiceError>)
    ensures
        r == interface_settings::checked(ntp_fault(*s)),
        r is Ok <==> s.valid(),
{
    if s.timezone < -720 || s.timezone > 840 {
        return Err(ServiceError::Timezone(s.timezone));
    }
    if s.servers.len() < 1 || s.servers.len() > MAX_NTP_SERVERS {
        return Err(ServiceError::ServerCount { got: s.servers.len() });
    }
    if s.resync_period < 1 || s.resync_period > 1440 {
        return Err(ServiceError::ResyncPeriod(s.resync_period));
    }
    let mut i: usize = 0;
    while i < s.servers.len()
        invariant
            0 <= i <= s.servers@.len(),
            -720 <= s.timezone <= 840,
            1 <= s.servers@.len() <= MAX_NTP_SERVERS,
            1 <= s.resync_period <= 1440,
            forall|k: int| 0 <= k < i ==> !text::blank(#[trigger] s.servers@[k]@),
        decreases s.servers@.len() - i,
    {
        if text::is_blank(s.servers[i].as_str()) {
            assert(text::blank(s.servers@[i as int]@));
            return Err(ServiceError::ServerBlank);
        }
        i += 1;
    }
    Ok(())
}

/// Settings have a fault exactly if they are not valid.
pub proof fn law_valid_settings_have_no_fault(s: ServiceSettings)
    ensures
        settings_fault(s) is None <==> s.valid(),
{
}

/// The service that a packet configures.
pub open spec fn configured(cmd: u8, parameter: u8) -> Result<ServiceType, ServiceError> {
    if cmd != MessageType::ServiceSettings.code() {
        Err(ServiceError::NotServiceSettings { cmd })
    } else if parameter == ServiceType::Undefined.code() {
        Err(ServiceError::UndefinedService)
    } else {
        service_type(parameter)
    }
}

/// Which service a packet configures, and so which record its payload holds.
pub fn payload_service(packet: &Packet<'_>) -> (r: Result<ServiceType, ServiceError>)
    ensures
        r == configured(packet.cmd, packet.parameter),
{
    if packet.cmd != MessageType::ServiceSettings.as_u8() {
        return Err(ServiceError::NotServiceSettings { cmd: packet.cmd });
    }
    match packet.parameter {
        0 => Err(ServiceError::UndefinedService),
        1 => Ok(ServiceType::UdpListener),
        2 => Ok(ServiceType::TcpServer),
        3 => Ok(ServiceType::NtpClient),
        other => Err(ServiceError::UnknownService(other)),
    }
}

/// The message of a packet whose payload holds `record`; no record stands for a payload that
/// is none of the service.
pub open spec fn decoded(cmd: u8, parameter: u8, record: Option<ServiceSettings>) -> Result<
    ServiceSettingsMessage,
    ServiceError,
> {
    match configured(cmd, parameter) {
        Err(e) => Err(e),
        Ok(service) => match record {
            Some(settings) => if settings.service() != service {
                Err(ServiceError::Malformed)
            } else if let Some(e) = settings_fault(settings) {
                Err(e)
            } else {
                Ok(ServiceSettingsMessage { service, settings })
            },
            None => Err(ServiceError::Malformed),
        },
    }
}

/// The settings of a packet whose payload was read as `record`.
pub fn decode(packet: &Packet<'_>, record: Option<ServiceSettings>) -> (r: Result<
    ServiceSettingsMessage,
    ServiceError,
>)
    ensures
        r == decoded(packet.cmd, packet.parameter, record),
{
    let service = match payload_service(packet) {
        Ok(service) => service,
        Err(e) => return Err(e),
    };
    let settings = match record {
        Some(settings) => settings,
        None => return Err(ServiceError::Malformed),
    };
    let check = match (service, &settings) {
        (ServiceType::UdpListener, ServiceSettings::UdpListener(s)) => validate_udp_listener(s),
        (ServiceType::TcpServer, ServiceSettings::TcpServer(s)) => validate_tcp_server(s),
        (ServiceType::NtpClient, ServiceSettings::NtpClient(s)) => validate_ntp_client(s),
        _ => Err(ServiceError::Malformed),
    };
    match check {
        Ok(()) => Ok(ServiceSettingsMessage { service, settings }),
        Err(e) => Err(e),
    }
}

/// What is accepted is what was sent, for the service that PARAM names, and it is valid.
pub proof fn law_only_valid_settings_are_accepted(
    cmd: u8,
    parameter: u8,
    record: Option<ServiceSettings>,
)
    ensures
        decoded(cmd, parameter, record) matches Ok(message) ==> {
            &&& cmd == MessageType::ServiceSettings.code()
            &&& parameter == message.service.code()
            &&& record == Some(message.settings)
            &&& message.settings.valid()
            &&& message.settings.service() == message.service
        },
{
}

/// Valid settings that arrive for their own service are accepted.
pub proof fn law_valid_settings_are_accepted(settings: ServiceSettings)
    requires
        settings.valid(),
    ensures
        decoded(
            MessageType::ServiceSettings.code(),
            settings.service().code(),
            Some(settings),
        ) == Ok::<ServiceSettingsMessage, ServiceError>(
            ServiceSettingsMessage { service: settings.service(), settings },
        ),
{
}

} // verus!
