//! The rover's configuration.

use vstd::prelude::*;

verus! {

/// What the rover is configured with. A field that the configuration file
/// leaves out is empty, but for the host name.
#[derive(Debug)]
pub struct Config {
    pub hostname: String,
    pub wifi_ssid: String,
    pub wifi_pass: String,
    pub mqtt_url: String,
    pub mqtt_user: String,
    pub mqtt_pass: String,
}

/// The host name of a rover that was given none.
pub fn default_hostname() -> (hostname: String)
    ensures
        hostname@ == "cat-mouse-unknown"@,
{
    "cat-mouse-unknown".to_owned()
}

/// A field as configured, or empty where it was left out.
fn or_empty(field: Option<String>) -> (text: String)
    ensures
        text@ == match field {
            Some(given) => given@,
            None => Seq::<char>::empty(),
        },
{
    match field {
        Some(given) => given,
        None => String::new(),
    }
}

impl Config {
    /// The configuration that a file with these fields gives: each field as
    /// it stands in the file, the default host name where the file has none,
    /// and an empty text for every other field that it leaves out.
    pub fn from_fields(
        hostname: Option<String>,
        wifi_ssid: Option<String>,
        wifi_pass: Option<String>,
        mqtt_url: Option<String>,
        mqtt_user: Option<String>,
        mqtt_pass: Option<String>,
    ) -> (config: Config)
        ensures
            config.hostname@ == match hostname {
                Some(given) => given@,
                None => "cat-mouse-unknown"@,
            },
            config.wifi_ssid@ == or_blank(wifi_ssid),
            config.wifi_pass@ == or_blank(wifi_pass),
            config.mqtt_url@ == or_blank(mqtt_url),
            config.mqtt_user@ == or_blank(mqtt_user),
            config.mqtt_pass@ == or_blank(mqtt_pass),
    {
        Config {
            hostname: match hostname {
                Some(given) => given,
                None => default_hostname(),
            },
            wifi_ssid: or_empty(wifi_ssid),
            wifi_pass: or_empty(wifi_pass),
            mqtt_url: or_empty(mqtt_url),
            mqtt_user: or_empty(mqtt_user),
            mqtt_pass: or_empty(mqtt_pass),
        }
    }
}

/// The text of a field, empty where the field was left out.
pub open spec fn or_blank(field: Option<String>) -> Seq<char> {
    match field {
        Some(given) => given@,
        None => Seq::<char>::empty(),
    }
}

} // verus!
