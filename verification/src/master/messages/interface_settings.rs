//! `InterfaceSettings`: how the master configures a network interface.

use vstd::prelude::*;

use crate::master::protocol::{MessageType, Packet};
use crate::text;

verus! {

/// The longest network name, in bytes.
pub const MAX_SSID_BYTES: usize = 32;

/// The longest password, in bytes.
pub const MAX_PASSWORD_BYTES: usize = 64;

/// The shortest password of a protected access point, in bytes.
pub const MIN_AP_PASSWORD_BYTES: usize = 8;

/// Strings of a static client configuration: address, netmask, gateway and two name servers.
pub const CLIENT_STATIC_STRINGS: usize = 5;

/// Strings of a static access point configuration: address and netmask.
pub const AP_STATIC_STRINGS: usize = 2;

#[derive(Debug, Clone, Copy, PartialEq, Eq, Structural)]
pub enum InterfaceType {
    Undefined,
    WiFiStation,
    WiFiAccessPoint,
    Ethernet,
}

/// Why settings were not accepted.
#[derive(Debug, Clone, Copy, PartialEq, Eq, Structural)]
pub enum SettingsError {
    /// The packet is of another message type.
    NotInterfaceSettings { cmd: u8 },
    /// PARAM names no interface.
    UnknownInterface(u8),
    /// PARAM is the placeholder of an interface.
    UndefinedInterface,
    /// The payload is no settings record of the interface.
    Malformed,
    /// The network name is empty or too long.
    SsidLength { len: usize },
    /// The password is too short or too long.
    PasswordLength { len: usize },
    ReconnectPeriod(u16),
    Channel(u8),
    MaxClients(u8),
    /// Without DHCP a static configuration must be there.
    StaticRequired,
    /// The static configuration has the wrong number of strings.
    StaticCount { got: usize },
}

impl InterfaceType {
    /// The number of the interface on the wire.
    pub open spec fn code(self) -> u8 {
        match self {
            InterfaceType::Undefined => 0,
            InterfaceType::WiFiStation => 1,
            InterfaceType::WiFiAccessPoint => 2,
            InterfaceType::Ethernet => 3,
        }
    }

    pub fn as_u8(self) -> (code: u8)
        ensures
            code == self.code(),
    {
        match self {
            InterfaceType::Undefined => 0,
            InterfaceType::WiFiStation => 1,
            InterfaceType::WiFiAccessPoint => 2,
            InterfaceType::Ethernet => 3,
        }
    }
}

/// The interface with the number `value`.
pub open spec fn interface_type(value: u8) -> Result<InterfaceType, SettingsError> {
    if value == 0 {
        Ok(InterfaceType::Undefined)
    } else if value == 1 {
        Ok(InterfaceType::WiFiStation)
    } else if value == 2 {
        Ok(InterfaceType::WiFiAccessPoint)
    } else if value == 3 {
        Ok(InterfaceType::Ethernet)
    } else {
        Err(SettingsError::UnknownInterface(value))
    }
}

impl TryFrom<u8> for InterfaceType {
    type Error = SettingsError;

    fn try_from(value: u8) -> (r: Result<InterfaceType, SettingsError>) {
        match value {
            0 => Ok(InterfaceType::Undefined),
            1 => Ok(InterfaceType::WiFiStation),
            2 => Ok(InterfaceType::WiFiAccessPoint),
            3 => Ok(InterfaceType::Ethernet),
            _ => Err(SettingsError::UnknownInterface(value)),
        }
    }
}

impl vstd::std_specs::convert::TryFromSpecImpl<u8> for InterfaceType {
    open spec fn obeys_try_from_spec() -> bool {
        true
    }

    open spec fn try_from_spec(value: u8) -> Result<InterfaceType, SettingsError> {
        interface_type(value)
    }
}

/// An interface is found again by its number.
pub proof fn law_interface_by_code(interface: InterfaceType)
    ensures
        interface_type(interface.code()) == Ok::<InterfaceType, SettingsError>(interface),
{
}

/// Settings of the Wi-Fi station.
#[derive(Debug, Clone)]
pub struct WiFiStationSettings {
    pub enabled: bool,
    pub ssid: String,
    /// Empty for an open network.
    pub password: String,
    /// Seconds between two attempts to connect.
    pub reconnect_period: u16,
    pub dhcp: bool,
    /// `[ip, netmask, gateway, dns, secondary dns]`; needed without DHCP.
    pub static_config: Option<Vec<String>>,
}

/// The reconnect period of settings that name none, in seconds.
pub fn default_reconnect_period() -> (secs: u16)
    ensures
        secs == 15,
{
    15
}

/// Settings of the Wi-Fi access point.
#[derive(Debug, Clone)]
pub struct WiFiAccessPointSettings {
    pub enabled: bool,
    pub ssid: String,
    /// Empty for an open access point.
    pub password: String,
    pub channel: u8,
    pub max_clients: u8,
    /// `[ip, netmask]`.
    pub static_config: Vec<String>,
}

/// Settings of the Ethernet port.
#[derive(Debug, Clone)]
pub struct EthernetSettings {
    pub enabled: bool,
    pub dhcp: bool,
    /// `[ip, netmask, gateway, dns, secondary dns]`; needed without DHCP.
    pub static_config: Option<Vec<String>>,
}

#[derive(Debug, Clone)]
pub enum InterfaceSettings {
    WiFiStation(WiFiStationSettings),
    WiFiAccessPoint(WiFiAccessPointSettings),
    Ethernet(EthernetSettings),
}

#[derive(Debug, Clone)]
pub struct InterfaceSettingsMessage {
    pub interface: InterfaceType,
    pub settings: InterfaceSettings,
}

/// How an address is to be had: by DHCP, or from a whole static configuration.
pub open spec fn addressing_valid(dhcp: bool, static_config: Option<Vec<String>>) -> bool {
    dhcp || (static_config matches Some(list) && list@.len() == CLIENT_STATIC_STRINGS)
}

impl WiFiStationSettings {
    /// The settings that the station accepts.
    pub open spec fn valid(self) -> bool {
        &&& 1 <= text::byte_len(self.ssid@) <= MAX_SSID_BYTES
        &&& text::byte_len(self.password@) <= MAX_PASSWORD_BYTES
        &&& 1 <= self.reconnect_period <= 600
        &&& addressing_valid(self.dhcp, self.static_config)
    }
}

impl WiFiAccessPointSettings {
    /// The settings that the access point accepts.
    pub open spec fn valid(self) -> bool {
        &&& 1 <= text::byte_len(self.ssid@) <= MAX_SSID_BYTES
        &&& text::byte_len(self.password@) == 0 || MIN_AP_PASSWORD_BYTES <= text::byte_len(
            self.password@,
        ) <= MAX_PASSWORD_BYTES
        &&& 1 <= self.channel <= 14
        &&& 1 <= self.max_clients <= 10
        &&& self.static_config@.len() == AP_STATIC_STRINGS
    }
}

impl EthernetSettings {
    /// The settings that the Ethernet port accepts.
    pub open spec fn valid(self) -> bool {
        addressing_valid(self.dhcp, self.static_config)
    }
}

impl InterfaceSettings {
    /// The settings that the interface accepts.
    pub open spec fn valid(self) -> bool {
        match self {
            InterfaceSettings::WiFiStation(s) => s.valid(),
            InterfaceSettings::WiFiAccessPoint(s) => s.valid(),
            InterfaceSettings::Ethernet(s) => s.valid(),
        }
    }

    /// The interface that the settings are for.
    pub open spec fn interface(self) -> InterfaceType {
        match self {
            InterfaceSettings::WiFiStation(_) => InterfaceType::WiFiStation,
            InterfaceSettings::WiFiAccessPoint(_) => InterfaceType::WiFiAccessPoint,
            InterfaceSettings::Ethernet(_) => InterfaceType::Ethernet,
        }
    }
}

/// The fault of an addressing that is not valid.
pub open spec fn addressing_fault(dhcp: bool, static_config: Option<Vec<String>>) -> Option<
    SettingsError,
> {
    if dhcp {
        None
    } else {
        match static_config {
            None => Some(SettingsError::StaticRequired),
            Some(list) => if list@.len() != CLIENT_STATIC_STRINGS {
                Some(SettingsError::StaticCount { got: list@.len() as usize })
            } else {
                None
            },
        }
    }
}

/// The first fault of station settings.
pub open spec fn station_fault(s: WiFiStationSettings) -> Option<SettingsError> {
    let ssid_len = text::byte_len(s.ssid@);
    let password_len = text::byte_len(s.password@);
    if !(1 <= ssid_len <= MAX_SSID_BYTES) {
        Some(SettingsError::SsidLength { len: ssid_len as usize })
    } else if password_len > MAX_PASSWORD_BYTES {
        Some(SettingsError::PasswordLength { len: password_len as usize })
    } else if !(1 <= s.reconnect_period <= 600) {
        Some(SettingsError::ReconnectPeriod(s.reconnect_period))
    } else {
        addressing_fault(s.dhcp, s.static_config)
    }
}

/// The first fault of access point settings.
pub open spec fn ap_fault(s: WiFiAccessPointSettings) -> Option<SettingsError> {
    let ssid_len = text::byte_len(s.ssid@);
    let password_len = text::byte_len(s.password@);
    if !(1 <= ssid_len <= MAX_SSID_BYTES) {
        Some(SettingsError::SsidLength { len: ssid_len as usize })
    } else if password_len > MAX_PASSWORD_BYTES || 0 < password_len < MIN_AP_PASSWORD_BYTES {
        Some(SettingsError::PasswordLength { len: password_len as usize })
    } else if !(1 <= s.channel <= 14) {
        Some(SettingsError::Channel(s.channel))
    } else if !(1 <= s.max_clients <= 10) {
        Some(SettingsError::MaxClients(s.max_clients))
    } else if s.static_config@.len() != AP_STATIC_STRINGS {
        Some(SettingsError::StaticCount { got: s.static_config@.len() as usize })
    } else {
        None
    }
}

/// The first fault of settings.
pub open spec fn settings_fault(s: InterfaceSettings) -> Option<SettingsError> {
    match s {
        InterfaceSettings::WiFiStation(s) => station_fault(s),
        InterfaceSettings::WiFiAccessPoint(s) => ap_fault(s),
        InterfaceSettings::Ethernet(s) => addressing_fault(s.dhcp, s.static_config),
    }
}

/// A check that reports a fault if there is one.
pub open spec fn checked<E>(fault: Option<E>) -> Result<(), E> {
    match fault {
        None => Ok(()),
        Some(e) => Err(e),
    }
}

fn validate_addressing(dhcp: bool, static_config: &Option<Vec<String>>) -> (r: Result<
    (),
    SettingsError,
>)
    ensures
        r == checked(addressing_fault(dhcp, *static_config)),
{
    if dhcp {
        return Ok(());
    }
    match static_config {
        None => Err(SettingsError::StaticRequired),
        Some(list) => {
            if list.len() != CLIENT_STATIC_STRINGS {
                return Err(SettingsError::StaticCount { got: list.len() });
            }
            Ok(())
        },
    }
}

pub fn validate_wifi_station(s: &WiFiStationSettings) -> (r: Result<(), SettingsError>)
    ensures
        r == checked(station_fault(*s)),
        r is Ok <==> s.valid(),
{
    let ssid_len: usize = text::utf8_len(s.ssid.as_str());
    if ssid_len < 1 || ssid_len > MAX_SSID_BYTES {
        return Err(SettingsError::SsidLength { len: ssid_len });
    }
    let password_len: usize = text::utf8_len(s.password.as_str());
    if password_len > MAX_PASSWORD_BYTES {
        return Err(SettingsError::PasswordLength { len: password_len });
    }
    if s.reconnect_period < 1 || s.reconnect_period > 600 {
        return Err(SettingsError::ReconnectPeriod(s.reconnect_period));
    }
    validate_addressing(s.dhcp, &s.static_config)
}

pub fn validate_wifi_ap(s: &WiFiAccessPointSettings) -> (r: Result<(), SettingsError>)
    ensures
        r == checked(ap_fault(*s)),
        r is Ok <==> s.valid(),
{
    let ssid_len: usize = text::utf8_len(s.ssid.as_str());
    if ssid_len < 1 || ssid_len > MAX_SSID_BYTES {
        return Err(SettingsError::SsidLength { len: ssid_len });
    }
    let password_len: usize = text::utf8_len(s.password.as_str());
    if password_len > MAX_PASSWORD_BYTES || (password_len > 0 && password_len
        < MIN_AP_PASSWORD_BYTES) {
        return Err(SettingsError::PasswordLength { len: password_len });
    }
    if s.channel < 1 || s.channel > 14 {
        return Err(SettingsError::Channel(s.channel));
    }
    if s.max_clients < 1 || s.max_clients > 10 {
        return Err(SettingsError::MaxClients(s.max_clients));
    }
    if s.static_config.len() != AP_STATIC_STRINGS {
        return Err(SettingsError::StaticCount { got: s.static_config.len() });
    }
    Ok(())
}

pub fn validate_ethernet(s: &EthernetSettings) -> (r: Result<(), SettingsError>)
    ensures
        r == checked(addressing_fault(s.dhcp, s.static_config)),
        r is Ok <==> s.valid(),
{
    validate_addressing(s.dhcp, &s.static_config)
}

/// Settings have a fault exactly if they are not valid.
pub proof fn law_valid_settings_have_no_fault(s: InterfaceSettings)
    ensures
        settings_fault(s) is None <==> s.valid(),
{
}

/// The interface that a packet configures.
pub open spec fn configured(cmd: u8, parameter: u8) -> Result<InterfaceType, SettingsError> {
    if cmd != MessageType::InterfaceSettings.code() {
        Err(SettingsError::NotInterfaceSettings { cmd })
    } else if parameter == InterfaceType::Undefined.code() {
        Err(SettingsError::UndefinedInterface)
    } else {
        interface_type(parameter)
    }
}

/// Which interface a packet configures, and so which record its payload holds.
pub fn payload_interface(packet: &Packet<'_>) -> (r: Result<InterfaceType, SettingsError>)
    ensures
        r == configured(packet.cmd, packet.parameter),
{
    if packet.cmd != MessageType::InterfaceSettings.as_u8() {
        return Err(SettingsError::NotInterfaceSettings { cmd: packet.cmd });
    }
    match packet.parameter {
        0 => Err(SettingsError::UndefinedInterface),
        1 => Ok(InterfaceType::WiFiStation),
        2 => Ok(InterfaceType::WiFiAccessPoint),
        3 => Ok(InterfaceType::Ethernet),
        other => Err(SettingsError::UnknownInterface(other)),
    }
}

/// The message of a packet whose payload holds `record`; no record stands for a payload that
/// is none of the interface.
pub open spec fn decoded(cmd: u8, parameter: u8, record: Option<InterfaceSettings>) -> Result<
    InterfaceSettingsMessage,
    SettingsError,
> {
    match configured(cmd, parameter) {
        Err(e) => Err(e),
        Ok(interface) => match record {
            Some(settings) => if settings.interface() != interface {
                Err(SettingsError::Malformed)
            } else if let Some(e) = settings_fault(settings) {
                Err(e)
            } else {
                Ok(InterfaceSettingsMessage { interface, settings })
            },
            None => Err(SettingsError::Malformed),
        },
    }
}

/// The settings of a packet whose payload was read as `record`.
pub fn decode(packet: &Packet<'_>, record: Option<InterfaceSettings>) -> (r: Result<
    InterfaceSettingsMessage,
    SettingsError,
>)
    ensures
        r == decoded(packet.cmd, packet.parameter, record),
{
    let interface = match payload_interface(packet) {
        Ok(interface) => interface,
        Err(e) => return Err(e),
    };
    let settings = match record {
        Some(settings) => settings,
        None => return Err(SettingsError::Malformed),
    };
    let check = match (interface, &settings) {
        (InterfaceType::WiFiStation, InterfaceSettings::WiFiStation(s)) => validate_wifi_station(s),
        (InterfaceType::WiFiAccessPoint, InterfaceSettings::WiFiAccessPoint(s)) => validate_wifi_ap(
            s,
        ),
        (InterfaceType::Ethernet, InterfaceSettings::Ethernet(s)) => validate_ethernet(s),
        _ => Err(SettingsError::Malformed),
    };
    match check {
        Ok(()) => Ok(InterfaceSettingsMessage { interface, settings }),
        Err(e) => Err(e),
    }
}

/// What is accepted is what was sent, for the interface that PARAM names, and it is valid.
pub proof fn law_only_valid_settings_are_accepted(
    cmd: u8,
    parameter: u8,
    record: Option<InterfaceSettings>,
)
    ensures
        decoded(cmd, parameter, record) matches Ok(message) ==> {
            &&& cmd == MessageType::InterfaceSettings.code()
            &&& parameter == message.interface.code()
            &&& record == Some(message.settings)
            &&& message.settings.valid()
            &&& message.settings.interface() == message.interface
        },
{
}

/// Valid settings that arrive for their own interface are accepted.
pub proof fn law_valid_settings_are_accepted(settings: InterfaceSettings)
    requires
        settings.valid(),
    ensures
        decoded(
            MessageType::InterfaceSettings.code(),
            settings.interface().code(),
            Some(settings),
        ) == Ok::<InterfaceSettingsMessage, SettingsError>(
            InterfaceSettingsMessage { interface: settings.interface(), settings },
        ),
{
}

} // verus!
