//! What the radio is configured to.

use vstd::prelude::*;

use crate::master::messages::interface_settings::{
    WiFiAccessPointSettings, WiFiStationSettings, MAX_PASSWORD_BYTES, MAX_SSID_BYTES,
};
use crate::network::ipv4::InvalidArgument;
use crate::network::wifi::scan::AuthMethod;
use crate::text;

verus! {

/// The settings of a station that the master has not configured yet.
pub open spec fn is_default_station(s: WiFiStationSettings) -> bool {
    &&& !s.enabled
    &&& s.ssid@ == "disabled"@
    &&& s.password@ == Seq::<char>::empty()
    &&& s.reconnect_period == 15
    &&& s.dhcp
    &&& s.static_config is None
}

/// The settings of an access point that the master has not configured yet.
pub open spec fn is_default_ap(s: WiFiAccessPointSettings) -> bool {
    &&& !s.enabled
    &&& s.ssid@ == "ESP32-AP"@
    &&& s.password@ == "12345678"@
    &&& s.channel == 1
    &&& s.max_clients == 4
    &&& s.static_config@.len() == 2
    &&& s.static_config@[0]@ == "192.168.4.1"@
    &&& s.static_config@[1]@ == "255.255.255.0"@
}

pub fn default_sta_settings() -> (s: WiFiStationSettings)
    ensures
        is_default_station(s),
{
    WiFiStationSettings {
        enabled: false,
        ssid: "disabled".to_owned(),
        password: String::new(),
        reconnect_period: 15,
        dhcp: true,
        static_config: None,
    }
}

pub fn default_ap_settings() -> (s: WiFiAccessPointSettings)
    ensures
        is_default_ap(s),
{
    let mut static_config: Vec<String> = Vec::new();
    static_config.push("192.168.4.1".to_owned());
    static_config.push("255.255.255.0".to_owned());
    WiFiAccessPointSettings {
        enabled: false,
        ssid: "ESP32-AP".to_owned(),
        password: "12345678".to_owned(),
        channel: 1,
        max_clients: 4,
        static_config,
    }
}

/// The station's side of the radio.
#[derive(Debug, Clone)]
pub struct ClientConfiguration {
    pub ssid: String,
    pub password: String,
    pub auth_method: AuthMethod,
}

/// The access point's side of the radio.
#[derive(Debug, Clone)]
pub struct AccessPointConfiguration {
    pub ssid: String,
    pub ssid_hidden: bool,
    pub channel: u8,
    pub secondary_channel: Option<u8>,
    pub auth_method: AuthMethod,
    pub password: String,
    pub max_connections: u16,
}

/// Which sides of the radio are in use.
#[derive(Debug, Clone)]
pub enum Configuration {
    AccessPoint(AccessPointConfiguration),
    Mixed(ClientConfiguration, AccessPointConfiguration),
}

/// A network without password is open, any other one is WPA2.
pub open spec fn auth_for(password: Seq<char>) -> AuthMethod {
    if password.len() == 0 {
        AuthMethod::Open
    } else {
        AuthMethod::Wpa2Personal
    }
}

fn auth_method_for(password: &str) -> (method: AuthMethod)
    ensures
        method == auth_for(password@),
{
    if password.is_empty() {
        AuthMethod::Open
    } else {
        AuthMethod::Wpa2Personal
    }
}

/// The radio takes a network name of this length.
pub open spec fn ssid_fits(ssid: Seq<char>) -> bool {
    text::byte_len(ssid) <= MAX_SSID_BYTES
}

/// The radio takes a password of this length.
pub open spec fn password_fits(password: Seq<char>) -> bool {
    text::byte_len(password) <= MAX_PASSWORD_BYTES
}

/// Whether the radio takes a network name and a password of these lengths.
pub fn credentials_fit(ssid: &str, password: &str) -> (r: bool)
    ensures
        r == (ssid_fits(ssid@) && password_fits(password@)),
{
    text::utf8_len(ssid) <= MAX_SSID_BYTES && text::utf8_len(password) <= MAX_PASSWORD_BYTES
}

/// The station's side of the radio for its settings.
pub open spec fn is_client_configuration(cfg: ClientConfiguration, s: WiFiStationSettings) -> bool {
    &&& cfg.ssid@ == s.ssid@
    &&& cfg.password@ == s.password@
    &&& cfg.auth_method == auth_for(s.password@)
}

pub fn build_client_configuration(settings: &WiFiStationSettings) -> (r: Result<
    ClientConfiguration,
    InvalidArgument,
>)
    ensures
        r is Ok <==> ssid_fits(settings.ssid@) && password_fits(settings.password@),
        r matches Ok(cfg) ==> is_client_configuration(cfg, *settings),
{
    if !credentials_fit(settings.ssid.as_str(), settings.password.as_str()) {
        return Err(InvalidArgument);
    }
    Ok(
        ClientConfiguration {
            ssid: settings.ssid.clone(),
            password: settings.password.clone(),
            auth_method: auth_method_for(settings.password.as_str()),
        },
    )
}

/// Whether an access point can be configured: one that is switched off always can.
pub open spec fn ap_configurable(s: WiFiAccessPointSettings) -> bool {
    !s.enabled || (ssid_fits(s.ssid@) && password_fits(s.password@))
}

/// The access point's side of the radio for its settings. One that is switched off is hidden,
/// protected, and takes at most one client.
pub open spec fn is_ap_configuration(
    cfg: AccessPointConfiguration,
    s: WiFiAccessPointSettings,
) -> bool {
    &&& cfg.secondary_channel is None
    &&& if s.enabled {
        &&& cfg.ssid@ == s.ssid@
        &&& !cfg.ssid_hidden
        &&& cfg.channel == s.channel
        &&& cfg.auth_method == auth_for(s.password@)
        &&& cfg.password@ == s.password@
        &&& cfg.max_connections == s.max_clients
    } else {
        &&& cfg.ssid@ == "ap-disabled"@
        &&& cfg.ssid_hidden
        &&& cfg.channel == 1
        &&& cfg.auth_method == AuthMethod::Wpa2Personal
        &&& cfg.password@ == "disabled-ap-profile"@
        &&& cfg.max_connections == 1
    }
}

pub fn build_ap_configuration(settings: &WiFiAccessPointSettings) -> (r: Result<
    AccessPointConfiguration,
    InvalidArgument,
>)
    ensures
        r is Ok <==> ap_configurable(*settings),
        r matches Ok(cfg) ==> is_ap_configuration(cfg, *settings),
{
    if !settings.enabled {
        return Ok(
            AccessPointConfiguration {
                ssid: "ap-disabled".to_owned(),
                ssid_hidden: true,
                channel: 1,
                secondary_channel: None,
                auth_method: AuthMethod::Wpa2Personal,
                password: "disabled-ap-profile".to_owned(),
                max_connections: 1,
            },
        );
    }
    if !credentials_fit(settings.ssid.as_str(), settings.password.as_str()) {
        return Err(InvalidArgument);
    }
    Ok(
        AccessPointConfiguration {
            ssid: settings.ssid.clone(),
            ssid_hidden: false,
            channel: settings.channel,
            secondary_channel: None,
            auth_method: auth_method_for(settings.password.as_str()),
            password: settings.password.clone(),
            max_connections: settings.max_clients as u16,
        },
    )
}

/// What the radio is configured to: both sides if the station is enabled, else the access
/// point alone.
pub fn compose_wifi_mode_configuration(
    station_settings: &WiFiStationSettings,
    station_cfg: ClientConfiguration,
    ap_cfg: AccessPointConfiguration,
) -> (cfg: Configuration)
    ensures
        cfg == (if station_settings.enabled {
            Configuration::Mixed(station_cfg, ap_cfg)
        } else {
            Configuration::AccessPoint(ap_cfg)
        }),
{
    if station_settings.enabled {
        Configuration::Mixed(station_cfg, ap_cfg)
    } else {
        Configuration::AccessPoint(ap_cfg)
    }
}

/// Valid settings always give a configuration.
pub proof fn law_valid_settings_are_configurable(
    station: WiFiStationSettings,
    ap: WiFiAccessPointSettings,
)
    ensures
        station.valid() ==> ssid_fits(station.ssid@) && password_fits(station.password@),
        ap.valid() ==> ap_configurable(ap),
{
}

/// The radio takes a name of up to 32 bytes and a password of up to 64.
pub proof fn law_radio_limits(t: Seq<char>)
    ensures
        ssid_fits(t) <==> text::byte_len(t) <= 32,
        password_fits(t) <==> text::byte_len(t) <= 64,
{
}

/// The station joins the network of its settings with their password. It expects an open network
/// exactly where there is none, else one that is protected by WPA2.
pub proof fn law_station_joins_its_network(cfg: ClientConfiguration, s: WiFiStationSettings)
    requires
        is_client_configuration(cfg, s),
    ensures
        cfg.ssid@ == s.ssid@,
        cfg.password@ == s.password@,
        cfg.auth_method == AuthMethod::Open <==> s.password@.len() == 0,
        cfg.auth_method == AuthMethod::Wpa2Personal <==> s.password@.len() > 0,
{
}

/// An enabled access point shows the name of its settings on their channel, takes as many clients
/// as they say, and is open exactly where they have no password, else protected by WPA2 with it.
/// One that is not enabled cannot be used: it is hidden, protected, and neither its name nor its
/// password is that of the settings.
pub proof fn law_ap_is_as_configured(cfg: AccessPointConfiguration, s: WiFiAccessPointSettings)
    requires
        is_ap_configuration(cfg, s),
    ensures
        cfg.secondary_channel is None,
        cfg.ssid_hidden <==> !s.enabled,
        cfg.auth_method == AuthMethod::Open <==> s.enabled && s.password@.len() == 0,
        cfg.auth_method == AuthMethod::Wpa2Personal <==> !s.enabled || s.password@.len() > 0,
        s.enabled ==> cfg.ssid@ == s.ssid@ && cfg.password@ == s.password@ && cfg.channel
            == s.channel && cfg.max_connections == s.max_clients,
        !s.enabled ==> cfg.ssid@ == "ap-disabled"@ && cfg.password@ == "disabled-ap-profile"@
            && cfg.channel == 1 && cfg.max_connections == 1,
{
}

} // verus!
