//! Constraints on relay selection and the bridge (proxy) configuration,
//! together with the validation rules a bridge configuration must pass
//! before it is accepted into the settings.

use vstd::prelude::*;

verus! {

/// Whether bridges are used: decided automatically, forced on, or off.
#[derive(Clone, Copy, Debug, PartialEq, Eq, Structural)]
pub enum BridgeState {
    Auto,
    On,
    Off,
}

/// A location to pick relays from, at country, city or single-host
/// granularity.
#[derive(Debug, PartialEq)]
pub enum LocationConstraint {
    /// A two letter country code.
    Country(String),
    /// A country code and a three letter city code.
    City(String, String),
    /// A country code, a city code and a relay hostname.
    Hostname(String, String, String),
}

impl Clone for LocationConstraint {
    fn clone(&self) -> (r: Self)
        ensures
            r == *self,
    {
        match self {
            LocationConstraint::Country(country) => LocationConstraint::Country(country.clone()),
            LocationConstraint::City(country, city) => LocationConstraint::City(
                country.clone(),
                city.clone(),
            ),
            LocationConstraint::Hostname(country, city, hostname) => LocationConstraint::Hostname(
                country.clone(),
                city.clone(),
                hostname.clone(),
            ),
        }
    }
}

/// Either no preference at all, or one concrete location constraint.
#[derive(Debug, PartialEq)]
pub enum Constraint {
    Any,
    Only(LocationConstraint),
}

impl Clone for Constraint {
    fn clone(&self) -> (r: Self)
        ensures
            r == *self,
    {
        match self {
            Constraint::Any => Constraint::Any,
            Constraint::Only(location) => Constraint::Only(location.clone()),
        }
    }
}

/// Constraints put on bridge relay selection.
#[derive(Debug, PartialEq)]
pub struct BridgeConstraints {
    pub location: Constraint,
}

impl Clone for BridgeConstraints {
    fn clone(&self) -> (r: Self)
        ensures
            r == *self,
    {
        BridgeConstraints { location: self.location.clone() }
    }
}

/// A SOCKS5 proxy running on this host.
#[derive(Debug, PartialEq)]
pub struct LocalProxySettings {
    /// The port the local proxy server listens on.
    pub port: u16,
    /// Address of the proxy server peer.
    pub peer_address: String,
    /// Port of the proxy server peer.
    pub peer_port: u16,
}

impl Clone for LocalProxySettings {
    fn clone(&self) -> (r: Self)
        ensures
            r == *self,
    {
        LocalProxySettings {
            port: self.port,
            peer_address: self.peer_address.clone(),
            peer_port: self.peer_port,
        }
    }
}

/// Credentials for a remote SOCKS5 proxy.
#[derive(Debug, PartialEq)]
pub struct ProxyAuth {
    pub username: String,
    pub password: String,
}

impl Clone for ProxyAuth {
    fn clone(&self) -> (r: Self)
        ensures
            r == *self,
    {
        ProxyAuth { username: self.username.clone(), password: self.password.clone() }
    }
}

/// A remote SOCKS5 proxy.
#[derive(Debug, PartialEq)]
pub struct RemoteProxySettings {
    pub address: String,
    pub port: u16,
    pub auth: Option<ProxyAuth>,
}

impl Clone for RemoteProxySettings {
    fn clone(&self) -> (r: Self)
        ensures
            r == *self,
    {
        RemoteProxySettings {
            address: self.address.clone(),
            port: self.port,
            auth: match &self.auth {
                Some(auth) => Some(auth.clone()),
                None => None,
            },
        }
    }
}

/// A Shadowsocks proxy.
#[derive(Debug, PartialEq)]
pub struct ShadowsocksProxySettings {
    pub peer_address: String,
    pub peer_port: u16,
    pub password: String,
    pub cipher: String,
}

impl Clone for ShadowsocksProxySettings {
    fn clone(&self) -> (r: Self)
        ensures
            r == *self,
    {
        ShadowsocksProxySettings {
            peer_address: self.peer_address.clone(),
            peer_port: self.peer_port,
            password: self.password.clone(),
            cipher: self.cipher.clone(),
        }
    }
}

/// One of the supported custom proxy kinds.
#[derive(Debug, PartialEq)]
pub enum ProxySettings {
    Local(LocalProxySettings),
    Remote(RemoteProxySettings),
    Shadowsocks(ShadowsocksProxySettings),
}

impl Clone for ProxySettings {
    fn clone(&self) -> (r: Self)
        ensures
            r == *self,
    {
        match self {
            ProxySettings::Local(local) => ProxySettings::Local(local.clone()),
            ProxySettings::Remote(remote) => ProxySettings::Remote(remote.clone()),
            ProxySettings::Shadowsocks(shadowsocks) => ProxySettings::Shadowsocks(
                shadowsocks.clone(),
            ),
        }
    }
}

/// Either constraints on which bridge relays to pick, or one custom proxy.
#[derive(Debug, PartialEq)]
pub enum BridgeSettings {
    Normal(BridgeConstraints),
    Custom(ProxySettings),
}

impl Clone for BridgeSettings {
    fn clone(&self) -> (r: Self)
        ensures
            r == *self,
    {
        match self {
            BridgeSettings::Normal(constraints) => BridgeSettings::Normal(constraints.clone()),
            BridgeSettings::Custom(proxy) => BridgeSettings::Custom(proxy.clone()),
        }
    }
}

/// Why a bridge configuration was rejected.
#[derive(Clone, Copy, Debug, PartialEq, Eq, Structural)]
pub enum ValidationError {
    /// A port that must be set was zero.
    InvalidPort,
    /// An address that must be set was empty.
    EmptyAddress,
    /// The Shadowsocks cipher is not one of the supported ones.
    UnsupportedCipher,
    /// A relay location list must name country, city and hostname at most.
    TooManyLocationParts,
}

/// Constraints on which relays to connect through.
#[derive(Debug, PartialEq)]
pub struct RelayConstraints {
    pub location: Constraint,
}

impl Clone for RelayConstraints {
    fn clone(&self) -> (r: Self)
        ensures
            r == *self,
    {
        RelayConstraints { location: self.location.clone() }
    }
}

/// The relay selection part of the settings.
#[derive(Debug, PartialEq)]
pub enum RelaySettings {
    Normal(RelayConstraints),
}

impl Clone for RelaySettings {
    fn clone(&self) -> (r: Self)
        ensures
            r == *self,
    {
        match self {
            RelaySettings::Normal(constraints) => RelaySettings::Normal(constraints.clone()),
        }
    }
}

/// A partial update of the relay constraints: fields left `None` keep
/// their old value.
#[derive(Debug, PartialEq)]
pub struct RelayConstraintsUpdate {
    pub location: Option<Constraint>,
}

/// A partial update of the relay selection settings.
#[derive(Debug, PartialEq)]
pub enum RelaySettingsUpdate {
    Normal(RelayConstraintsUpdate),
}

impl RelaySettings {
    /// The settings after applying a partial update: a field named by the
    /// update replaces the old one, everything else is kept.
    pub open spec fn spec_updated(self, update: RelaySettingsUpdate) -> RelaySettings {
        match (self, update) {
            (
                RelaySettings::Normal(constraints),
                RelaySettingsUpdate::Normal(constraints_update),
            ) => RelaySettings::Normal(
                RelayConstraints {
                    location: match constraints_update.location {
                        Some(location) => location,
                        None => constraints.location,
                    },
                },
            ),
        }
    }

    /// Applies a partial update; executable mirror of
    /// [`Self::spec_updated`].
    pub fn updated(self, update: RelaySettingsUpdate) -> (r: RelaySettings)
        ensures
            r == self.spec_updated(update),
    {
        match (self, update) {
            (
                RelaySettings::Normal(constraints),
                RelaySettingsUpdate::Normal(constraints_update),
            ) => RelaySettings::Normal(
                RelayConstraints {
                    location: match constraints_update.location {
                        Some(location) => location,
                        None => constraints.location,
                    },
                },
            ),
        }
    }
}

/// What a proxy configuration must satisfy to be accepted: every port and
/// address that will be dialed is set, and a Shadowsocks cipher is one of
/// the supported ones.
pub open spec fn spec_proxy_settings_valid(proxy: ProxySettings) -> Result<(), ValidationError> {
    match proxy {
        ProxySettings::Local(local) => if local.port == 0 || local.peer_port == 0 {
            Err(ValidationError::InvalidPort)
        } else if local.peer_address@.len() == 0 {
            Err(ValidationError::EmptyAddress)
        } else {
            Ok(())
        },
        ProxySettings::Remote(remote) => if remote.port == 0 {
            Err(ValidationError::InvalidPort)
        } else if remote.address@.len() == 0 {
            Err(ValidationError::EmptyAddress)
        } else {
            Ok(())
        },
        ProxySettings::Shadowsocks(shadowsocks) => if shadowsocks.peer_port == 0 {
            Err(ValidationError::InvalidPort)
        } else if shadowsocks.peer_address@.len() == 0 {
            Err(ValidationError::EmptyAddress)
        } else if !is_supported_cipher(shadowsocks.cipher@) {
            Err(ValidationError::UnsupportedCipher)
        } else {
            Ok(())
        },
    }
}

/// The Shadowsocks ciphers the bundled proxy supports.
pub open spec fn is_supported_cipher(cipher: Seq<char>) -> bool {
    ||| cipher == "aes-128-cfb"@
    ||| cipher == "aes-128-cfb1"@
    ||| cipher == "aes-128-cfb8"@
    ||| cipher == "aes-128-cfb128"@
    ||| cipher == "aes-256-cfb"@
    ||| cipher == "aes-256-cfb1"@
    ||| cipher == "aes-256-cfb8"@
    ||| cipher == "aes-256-cfb128"@
    ||| cipher == "rc4"@
    ||| cipher == "rc4-md5"@
    ||| cipher == "chacha20"@
    ||| cipher == "salsa20"@
    ||| cipher == "chacha20-ietf"@
}

/// Executable mirror of [`is_supported_cipher`].
pub fn cipher_is_supported(cipher: &str) -> (r: bool)
    ensures
        r == is_supported_cipher(cipher@),
{
    cipher.eq("aes-128-cfb") || cipher.eq("aes-128-cfb1") || cipher.eq("aes-128-cfb8")
        || cipher.eq("aes-128-cfb128") || cipher.eq("aes-256-cfb") || cipher.eq("aes-256-cfb1")
        || cipher.eq("aes-256-cfb8") || cipher.eq("aes-256-cfb128") || cipher.eq("rc4")
        || cipher.eq("rc4-md5") || cipher.eq("chacha20") || cipher.eq("salsa20")
        || cipher.eq("chacha20-ietf")
}

/// Checks a custom proxy configuration; executable mirror of
/// [`spec_proxy_settings_valid`].
pub fn validate_proxy_settings(proxy: &ProxySettings) -> (r: Result<(), ValidationError>)
    ensures
        r == spec_proxy_settings_valid(*proxy),
{
    match proxy {
        ProxySettings::Local(local) => {
            if local.port == 0 || local.peer_port == 0 {
                Err(ValidationError::InvalidPort)
            } else if local.peer_address.as_str().is_empty() {
                Err(ValidationError::EmptyAddress)
            } else {
                Ok(())
            }
        },
        ProxySettings::Remote(remote) => {
            if remote.port == 0 {
                Err(ValidationError::InvalidPort)
            } else if remote.address.as_str().is_empty() {
                Err(ValidationError::EmptyAddress)
            } else {
                Ok(())
            }
        },
        ProxySettings::Shadowsocks(shadowsocks) => {
            if shadowsocks.peer_port == 0 {
                Err(ValidationError::InvalidPort)
            } else if shadowsocks.peer_address.as_str().is_empty() {
                Err(ValidationError::EmptyAddress)
            } else if !cipher_is_supported(shadowsocks.cipher.as_str()) {
                Err(ValidationError::UnsupportedCipher)
            } else {
                Ok(())
            }
        },
    }
}

/// What a bridge configuration must satisfy to be accepted.
pub open spec fn spec_bridge_settings_valid(settings: BridgeSettings) -> Result<
    (),
    ValidationError,
> {
    match settings {
        BridgeSettings::Normal(_) => Ok(()),
        BridgeSettings::Custom(proxy) => spec_proxy_settings_valid(proxy),
    }
}

/// Checks a bridge configuration; executable mirror of
/// [`spec_bridge_settings_valid`].
pub fn validate_bridge_settings(settings: &BridgeSettings) -> (r: Result<(), ValidationError>)
    ensures
        r == spec_bridge_settings_valid(*settings),
{
    match settings {
        BridgeSettings::Normal(_) => Ok(()),
        BridgeSettings::Custom(proxy) => validate_proxy_settings(proxy),
    }
}

/// Reads a relay location given as a list of zero to three parts
/// (country, city, hostname) into a constraint; more parts are rejected.
pub fn resolve_location_constraint(parts: &Vec<String>) -> (r: Result<Constraint, ValidationError>)
    ensures
        match r {
            Ok(constraint) => match constraint {
                Constraint::Any => parts@.len() == 0,
                Constraint::Only(location) => match location {
                    LocationConstraint::Country(country) => parts@.len() == 1 && country
                        == parts@[0],
                    LocationConstraint::City(country, city) => parts@.len() == 2 && country
                        == parts@[0] && city == parts@[1],
                    LocationConstraint::Hostname(country, city, hostname) => parts@.len() == 3
                        && country == parts@[0] && city == parts@[1] && hostname == parts@[2],
                },
            },
            Err(e) => parts@.len() > 3 && e == ValidationError::TooManyLocationParts,
        },
{
    if parts.len() == 0 {
        Ok(Constraint::Any)
    } else if parts.len() == 1 {
        Ok(Constraint::Only(LocationConstraint::Country(parts[0].clone())))
    } else if parts.len() == 2 {
        Ok(
            Constraint::Only(
                LocationConstraint::City(parts[0].clone(), parts[1].clone()),
            ),
        )
    } else if parts.len() == 3 {
        Ok(
            Constraint::Only(
                LocationConstraint::Hostname(
                    parts[0].clone(),
                    parts[1].clone(),
                    parts[2].clone(),
                ),
            ),
        )
    } else {
        Err(ValidationError::TooManyLocationParts)
    }
}

} // verus!
