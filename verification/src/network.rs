//! What the network set-up decides before it touches the radio.

use vstd::prelude::*;

verus! {

/// How the rover authenticates to the access point.
#[derive(Clone, Copy, Debug, PartialEq, Eq, Structural)]
pub enum AuthMethod {
    /// An open network.
    Open,
    /// A pre-shared key.
    WPA2Personal,
}

/// What the network set-up refuses.
#[derive(Debug, PartialEq, Eq)]
pub enum NetworkError {
    /// The configuration cannot be used; the text says why.
    Config(String),
}

/// How to authenticate with this network name and key. Without a name
/// there is no network to join; without a key the network is taken to be
/// open.
pub fn auth_method(ssid: &str, psk: &str) -> (method: Result<AuthMethod, NetworkError>)
    ensures
        match method {
            Ok(chosen) => ssid@.len() > 0 && chosen == if psk@.len() == 0 {
                AuthMethod::Open
            } else {
                AuthMethod::WPA2Personal
            },
            Err(NetworkError::Config(why)) => ssid@.len() == 0 && why@ == "No SSID specified!"@,
        },
{
    if ssid.is_empty() {
        return Err(NetworkError::Config("No SSID specified!".to_owned()));
    }
    if psk.is_empty() {
        Ok(AuthMethod::Open)
    } else {
        Ok(AuthMethod::WPA2Personal)
    }
}

} // verus!
